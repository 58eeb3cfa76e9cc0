//! Sign-up: the decisions of the registration flow, as a machine that the
//! service drives. It asks for the lookup of existing accounts, the insert
//! of the new user, and the activation messages, and finally names the
//! response.
use vstd::prelude::*;
use crate::text::{trim, trim_str};

verus! {

/// What a sign-up response reports when it fails.
pub enum RegisterMessage {
    /// Nothing went wrong.
    NoMessage,
    /// An active account already has the email or the phone number.
    Taken,
    /// The database gave no id for the new user.
    InsertFailed,
    /// Neither an email address nor a phone number was given.
    MissingContact,
    /// The activation email could not be sent.
    EmailFailed,
    /// The activation SMS could not be sent.
    SmsFailed,
}

impl RegisterMessage {
    /// The text of the message in the response.
    pub fn text(&self) -> (t: &'static str)
        ensures
            t@ == register_message_text(*self),
    {
        match self {
            RegisterMessage::NoMessage => "",
            RegisterMessage::Taken => "The email or phone number is already taken!",
            RegisterMessage::InsertFailed => "The database insert operation has failed",
            RegisterMessage::MissingContact => "You must provide a validate email address or a mobile phone number.",
            RegisterMessage::EmailFailed => "Cannot send email message.",
            RegisterMessage::SmsFailed => "Cannot send SMS message to your phone number.",
        }
    }
}

pub open spec fn register_message_text(m: RegisterMessage) -> Seq<char> {
    match m {
        RegisterMessage::NoMessage => ""@,
        RegisterMessage::Taken => "The email or phone number is already taken!"@,
        RegisterMessage::InsertFailed => "The database insert operation has failed"@,
        RegisterMessage::MissingContact => "You must provide a validate email address or a mobile phone number."@,
        RegisterMessage::EmailFailed => "Cannot send email message."@,
        RegisterMessage::SmsFailed => "Cannot send SMS message to your phone number."@,
    }
}

/// Where the sign-up stands.
pub enum RegisterStage {
    /// Waiting for the number of active accounts with the email and the phone.
    Lookup,
    /// Waiting for the id of the inserted user.
    Insert,
    /// Waiting for the outcome of the activation email.
    Email,
    /// Waiting for the outcome of the activation SMS.
    Sms,
    /// The response is due.
    Done,
}

/// What the service must do next.
pub enum RegisterAction {
    /// Count the active users with the email, and with the phone number.
    LookupTaken,
    /// Insert the new user and report its id.
    InsertUser,
    /// Store an activation code for user `uid` in email mode and mail the link.
    SendEmailActivation { uid: u64 },
    /// Store an activation code for user `uid` in phone mode and text the link.
    SendSmsActivation { uid: u64 },
    /// Answer with this status and message.
    Respond { status: bool, message: RegisterMessage },
}

/// What the service reports back.
pub enum RegisterEvent {
    TakenCounts { by_email: usize, by_phone: usize },
    Inserted { id: Option<u64> },
    EmailSent { ok: bool },
    SmsSent { ok: bool },
}

/// The state of one sign-up.
pub struct RegisterFlow {
    pub stage: RegisterStage,
    pub status: bool,
    pub message: RegisterMessage,
    pub uid: u64,
    /// Whether an email address (not all white space) was given.
    pub email_given: bool,
    /// Whether a phone number (not all white space) was given.
    pub phone_given: bool,
}

/// The action that a state asks for.
pub open spec fn register_pending(f: RegisterFlow) -> RegisterAction {
    match f.stage {
        RegisterStage::Lookup => RegisterAction::LookupTaken,
        RegisterStage::Insert => RegisterAction::InsertUser,
        RegisterStage::Email => RegisterAction::SendEmailActivation { uid: f.uid },
        RegisterStage::Sms => RegisterAction::SendSmsActivation { uid: f.uid },
        RegisterStage::Done => RegisterAction::Respond { status: f.status, message: f.message },
    }
}

/// After the account checks: a sign-up with neither contact fails; one that
/// still succeeds sends the email activation first, then the SMS one.
pub open spec fn register_after_checks(f: RegisterFlow) -> RegisterFlow {
    let f1 = if !f.email_given && !f.phone_given {
        RegisterFlow { status: false, message: RegisterMessage::MissingContact, ..f }
    } else {
        f
    };
    let stage = if !f1.status {
        RegisterStage::Done
    } else if f1.email_given {
        RegisterStage::Email
    } else if f1.phone_given {
        RegisterStage::Sms
    } else {
        RegisterStage::Done
    };
    RegisterFlow { stage, ..f1 }
}

/// The transition on one event. An event that the stage does not wait for
/// changes nothing.
pub open spec fn register_next(f: RegisterFlow, e: RegisterEvent) -> RegisterFlow {
    match (f.stage, e) {
        (RegisterStage::Lookup, RegisterEvent::TakenCounts { by_email, by_phone }) => {
            if by_email > 0 || by_phone > 0 {
                register_after_checks(
                    RegisterFlow { status: false, message: RegisterMessage::Taken, ..f },
                )
            } else {
                RegisterFlow { stage: RegisterStage::Insert, ..f }
            }
        },
        (RegisterStage::Insert, RegisterEvent::Inserted { id }) => match id {
            None => register_after_checks(
                RegisterFlow { status: false, message: RegisterMessage::InsertFailed, ..f },
            ),
            Some(v) => register_after_checks(RegisterFlow { uid: v, ..f }),
        },
        (RegisterStage::Email, RegisterEvent::EmailSent { ok }) => {
            let f1 = if ok {
                f
            } else {
                RegisterFlow { status: false, message: RegisterMessage::EmailFailed, ..f }
            };
            let stage = if f1.phone_given {
                RegisterStage::Sms
            } else {
                RegisterStage::Done
            };
            RegisterFlow { stage, ..f1 }
        },
        (RegisterStage::Sms, RegisterEvent::SmsSent { ok }) => {
            if ok {
                RegisterFlow { stage: RegisterStage::Done, ..f }
            } else {
                RegisterFlow {
                    stage: RegisterStage::Done,
                    status: false,
                    message: RegisterMessage::SmsFailed,
                    ..f
                }
            }
        },
        _ => f,
    }
}

/// The state in which a sign-up starts.
pub open spec fn register_initial(email_given: bool, phone_given: bool) -> RegisterFlow {
    RegisterFlow {
        stage: RegisterStage::Lookup,
        status: true,
        message: RegisterMessage::NoMessage,
        uid: 0,
        email_given,
        phone_given,
    }
}

fn copy_message(m: &RegisterMessage) -> (r: RegisterMessage)
    ensures
        r == *m,
{
    match m {
        RegisterMessage::NoMessage => RegisterMessage::NoMessage,
        RegisterMessage::Taken => RegisterMessage::Taken,
        RegisterMessage::InsertFailed => RegisterMessage::InsertFailed,
        RegisterMessage::MissingContact => RegisterMessage::MissingContact,
        RegisterMessage::EmailFailed => RegisterMessage::EmailFailed,
        RegisterMessage::SmsFailed => RegisterMessage::SmsFailed,
    }
}

impl RegisterFlow {
    /// Starts a sign-up for the given email address and phone number.
    pub fn start(email: &str, phone_number: &str) -> (f: RegisterFlow)
        ensures
            f == register_initial(trim(email@).len() > 0, trim(phone_number@).len() > 0),
    {
        let email_given = trim_str(email).unicode_len() > 0;
        let phone_given = trim_str(phone_number).unicode_len() > 0;
        RegisterFlow {
            stage: RegisterStage::Lookup,
            status: true,
            message: RegisterMessage::NoMessage,
            uid: 0,
            email_given,
            phone_given,
        }
    }

    /// The action this state asks for.
    pub fn pending(&self) -> (a: RegisterAction)
        ensures
            a == register_pending(*self),
    {
        match self.stage {
            RegisterStage::Lookup => RegisterAction::LookupTaken,
            RegisterStage::Insert => RegisterAction::InsertUser,
            RegisterStage::Email => RegisterAction::SendEmailActivation { uid: self.uid },
            RegisterStage::Sms => RegisterAction::SendSmsActivation { uid: self.uid },
            RegisterStage::Done => RegisterAction::Respond {
                status: self.status,
                message: copy_message(&self.message),
            },
        }
    }

    fn after_checks(&mut self)
        ensures
            *final(self) == register_after_checks(*old(self)),
    {
        if !self.email_given && !self.phone_given {
            self.status = false;
            self.message = RegisterMessage::MissingContact;
        }
        if !self.status {
            self.stage = RegisterStage::Done;
        } else if self.email_given {
            self.stage = RegisterStage::Email;
        } else if self.phone_given {
            self.stage = RegisterStage::Sms;
        } else {
            self.stage = RegisterStage::Done;
        }
    }

    /// Takes in what the service reports and returns the next action.
    pub fn step(&mut self, event: RegisterEvent) -> (a: RegisterAction)
        ensures
            *final(self) == register_next(*old(self), event),
            a == register_pending(*final(self)),
    {
        match (&self.stage, event) {
            (RegisterStage::Lookup, RegisterEvent::TakenCounts { by_email, by_phone }) => {
                if by_email > 0 || by_phone > 0 {
                    self.status = false;
                    self.message = RegisterMessage::Taken;
                    self.after_checks();
                } else {
                    self.stage = RegisterStage::Insert;
                }
            },
            (RegisterStage::Insert, RegisterEvent::Inserted { id }) => {
                match id {
                    None => {
                        self.status = false;
                        self.message = RegisterMessage::InsertFailed;
                    },
                    Some(v) => {
                        self.uid = v;
                    },
                }
                self.after_checks();
            },
            (RegisterStage::Email, RegisterEvent::EmailSent { ok }) => {
                if !ok {
                    self.status = false;
                    self.message = RegisterMessage::EmailFailed;
                }
                if self.phone_given {
                    self.stage = RegisterStage::Sms;
                } else {
                    self.stage = RegisterStage::Done;
                }
            },
            (RegisterStage::Sms, RegisterEvent::SmsSent { ok }) => {
                if !ok {
                    self.status = false;
                    self.message = RegisterMessage::SmsFailed;
                }
                self.stage = RegisterStage::Done;
            },
            _ => {},
        }
        self.pending()
    }
}

/// The answer the service gives to the action a state asks for, when the
/// lookup finds `by_email` and `by_phone` accounts, the insert yields `id`,
/// and the email and SMS sends succeed as `email_ok` and `sms_ok` say.
pub open spec fn register_answer(
    f: RegisterFlow,
    by_email: usize,
    by_phone: usize,
    id: Option<u64>,
    email_ok: bool,
    sms_ok: bool,
) -> RegisterEvent {
    match f.stage {
        RegisterStage::Lookup => RegisterEvent::TakenCounts { by_email, by_phone },
        RegisterStage::Insert => RegisterEvent::Inserted { id },
        RegisterStage::Email => RegisterEvent::EmailSent { ok: email_ok },
        _ => RegisterEvent::SmsSent { ok: sms_ok },
    }
}

/// `n` steps of a sign-up in which every action is answered as above.
pub open spec fn register_run(
    f: RegisterFlow,
    n: nat,
    by_email: usize,
    by_phone: usize,
    id: Option<u64>,
    email_ok: bool,
    sms_ok: bool,
) -> RegisterFlow
    decreases n,
{
    if n == 0 {
        f
    } else {
        register_run(
            register_next(f, register_answer(f, by_email, by_phone, id, email_ok, sms_ok)),
            (n - 1) as nat,
            by_email,
            by_phone,
            id,
            email_ok,
            sms_ok,
        )
    }
}

/// Whether a sign-up succeeds: no active account has the email or phone,
/// the insert yields an id, a contact is given, and every activation
/// message that is due goes out.
pub open spec fn register_succeeds(
    email_given: bool,
    phone_given: bool,
    taken: bool,
    id: Option<u64>,
    email_ok: bool,
    sms_ok: bool,
) -> bool {
    &&& !taken
    &&& id is Some
    &&& email_given || phone_given
    &&& email_given ==> email_ok
    &&& phone_given ==> sms_ok
}

/// The message of a finished sign-up: the last failure that occurred.
pub open spec fn register_final_message(
    email_given: bool,
    phone_given: bool,
    taken: bool,
    id: Option<u64>,
    email_ok: bool,
    sms_ok: bool,
) -> RegisterMessage {
    let m0 = if taken {
        RegisterMessage::Taken
    } else if id is None {
        RegisterMessage::InsertFailed
    } else {
        RegisterMessage::NoMessage
    };
    if !email_given && !phone_given {
        RegisterMessage::MissingContact
    } else if !(!taken && id is Some) {
        m0
    } else if phone_given && !sms_ok {
        RegisterMessage::SmsFailed
    } else if email_given && !email_ok {
        RegisterMessage::EmailFailed
    } else {
        RegisterMessage::NoMessage
    }
}

/// A sign-up whose actions are all answered ends within four steps, and
/// its response succeeds exactly when no account has the contact, the
/// insert yields an id, a contact is given and every activation message
/// goes out; its message is the last failure, and an activation is only
/// ever asked for the inserted user.
pub proof fn lemma_register_outcome(
    email_given: bool,
    phone_given: bool,
    by_email: usize,
    by_phone: usize,
    id: Option<u64>,
    email_ok: bool,
    sms_ok: bool,
)
    ensures
        ({
            let f = register_run(
                register_initial(email_given, phone_given),
                4,
                by_email,
                by_phone,
                id,
                email_ok,
                sms_ok,
            );
            let taken = by_email > 0 || by_phone > 0;
            &&& f.stage == RegisterStage::Done
            &&& f.status == register_succeeds(email_given, phone_given, taken, id, email_ok, sms_ok)
            &&& f.message == register_final_message(
                email_given,
                phone_given,
                taken,
                id,
                email_ok,
                sms_ok,
            )
            &&& f.status ==> f.uid == id->0
        }),
{
    reveal_with_fuel(register_run, 5);
}

/// Whether every activation a state asks for is for the user that the
/// insert `id` created.
pub open spec fn activations_for_inserted(f: RegisterFlow, id: Option<u64>) -> bool {
    (f.stage is Email || f.stage is Sms) ==> id == Some(f.uid)
}

proof fn lemma_activations_for_inserted_run(
    f: RegisterFlow,
    n: nat,
    by_email: usize,
    by_phone: usize,
    id: Option<u64>,
    email_ok: bool,
    sms_ok: bool,
)
    requires
        activations_for_inserted(f, id),
    ensures
        activations_for_inserted(register_run(f, n, by_email, by_phone, id, email_ok, sms_ok), id),
    decreases n,
{
    if n > 0 {
        let g = register_next(f, register_answer(f, by_email, by_phone, id, email_ok, sms_ok));
        assert(activations_for_inserted(g, id));
        lemma_activations_for_inserted_run(g, (n - 1) as nat, by_email, by_phone, id, email_ok, sms_ok);
    }
}

/// Every activation a sign-up asks for carries the id of the user its
/// insert created: at any point of a sign-up whose insert yields `id`, an
/// email or SMS activation is asked for only when `id` is `Some(uid)`, and
/// then for exactly that `uid`.
pub proof fn lemma_activation_for_inserted_user(
    email_given: bool,
    phone_given: bool,
    n: nat,
    by_email: usize,
    by_phone: usize,
    id: Option<u64>,
    email_ok: bool,
    sms_ok: bool,
)
    ensures
        ({
            let a = register_pending(
                register_run(
                    register_initial(email_given, phone_given),
                    n,
                    by_email,
                    by_phone,
                    id,
                    email_ok,
                    sms_ok,
                ),
            );
            &&& a matches RegisterAction::SendEmailActivation { uid } ==> id == Some(uid)
            &&& a matches RegisterAction::SendSmsActivation { uid } ==> id == Some(uid)
        }),
{
    lemma_activations_for_inserted_run(
        register_initial(email_given, phone_given),
        n,
        by_email,
        by_phone,
        id,
        email_ok,
        sms_ok,
    );
}

} // verus!
