//! Account activation: the decisions of the activation flow, as a machine
//! that the service drives. A new key pair's address is registered with the
//! PBM contract, given gas, optionally funded with the tokens the sign-up
//! list grants, and then the account is activated and a session opened.
use vstd::prelude::*;
use crate::abi::{
    abi_selector, address_word, address_call, address_amount_call, create_erc20_approve_data,
    create_pbm_adduser_data, create_pbm_funduser_data,
};
use crate::eth::{
    Address, Uint256, be_word, h160_from_str, lemma_address_text_round_trip, parse_address_text,
    u256_div,
};
use crate::hex::prefixed_hex;
use crate::keys::secret_key_address;
use crate::text::str_eq;
use crate::tx::TxRequest;

verus! {

/// How the account being activated was reached.
pub enum ActivationMode {
    Email,
    Phone,
}

/// The mode named by the text stored with an activation code.
pub open spec fn activation_mode_of(text: Seq<char>) -> Option<ActivationMode> {
    if text == "email"@ {
        Some(ActivationMode::Email)
    } else if text == "phone"@ {
        Some(ActivationMode::Phone)
    } else {
        None
    }
}

/// Reads the mode text stored with an activation code.
pub fn parse_activation_mode(text: &str) -> (m: Option<ActivationMode>)
    ensures
        m == activation_mode_of(text@),
{
    if str_eq(text, "email") {
        Some(ActivationMode::Email)
    } else if str_eq(text, "phone") {
        Some(ActivationMode::Phone)
    } else {
        None
    }
}

/// The text stored for a mode with an activation code.
pub fn activation_mode_text(m: &ActivationMode) -> (t: &'static str)
    ensures
        activation_mode_of(t@) == Some(*m),
{
    proof {
        reveal_strlit("email");
        reveal_strlit("phone");
        assert("phone"@[0] != "email"@[0]);
    }
    match m {
        ActivationMode::Email => "email",
        ActivationMode::Phone => "phone",
    }
}

/// What an activation response reports.
pub enum ActivationMessage {
    Activated,
    BadAddress,
    AddUserFailed,
    GasFeeFailed,
    ApproveFailed,
    FundFailed,
    DatabaseFailed,
    BadMode,
    SessionFailed,
}

pub open spec fn activation_message_text(m: ActivationMessage) -> Seq<char> {
    match m {
        ActivationMessage::Activated => "Activated successfully."@,
        ActivationMessage::BadAddress => "Failed to generate a valid ETH address."@,
        ActivationMessage::AddUserFailed => "Failed to add user to the PBM contract."@,
        ActivationMessage::GasFeeFailed => "Failed to send CMT for gas fee."@,
        ActivationMessage::ApproveFailed => "Failed to approve ERC20 for funding."@,
        ActivationMessage::FundFailed => "Failed to fund user."@,
        ActivationMessage::DatabaseFailed => "Failed to update database."@,
        ActivationMessage::BadMode => "The mode is neither phone or email."@,
        ActivationMessage::SessionFailed => "Cannot create session for the user"@,
    }
}

impl ActivationMessage {
    pub fn text(&self) -> (t: &'static str)
        ensures
            t@ == activation_message_text(*self),
    {
        match self {
            ActivationMessage::Activated => "Activated successfully.",
            ActivationMessage::BadAddress => "Failed to generate a valid ETH address.",
            ActivationMessage::AddUserFailed => "Failed to add user to the PBM contract.",
            ActivationMessage::GasFeeFailed => "Failed to send CMT for gas fee.",
            ActivationMessage::ApproveFailed => "Failed to approve ERC20 for funding.",
            ActivationMessage::FundFailed => "Failed to fund user.",
            ActivationMessage::DatabaseFailed => "Failed to update database.",
            ActivationMessage::BadMode => "The mode is neither phone or email.",
            ActivationMessage::SessionFailed => "Cannot create session for the user",
        }
    }
}

/// Where the activation stands.
pub enum ActivationStage {
    /// Waiting for the transaction that adds the address to the PBM users.
    AddUser,
    /// Waiting for the transaction that sends gas money to the address.
    GasFee,
    /// Waiting for the ERC-20 approval of the PBM contract.
    Approve,
    /// Waiting for the PBM `fundUser` transaction.
    Fund,
    /// Waiting for the database to mark the account active.
    ActivateAccount,
    /// Waiting for the funding record and the new session.
    OpenSession,
    /// The response is due.
    Done,
}

/// What the service must do next.
pub enum ActivationAction {
    /// Sign and send the transaction that `transaction` describes, and report
    /// its hash (or that it failed).
    SendTransaction,
    /// Mark the account active in this mode, storing its new key pair.
    ActivateAccount { mode: ActivationMode },
    /// Delete the code, record the funding, and open a session for the user.
    OpenSession,
    /// Answer with this status and message.
    Respond { status: bool, message: ActivationMessage },
}

/// What the service reports back.
pub enum ActivationEvent {
    TransactionSent { hash: Option<String> },
    AccountActivated { ok: bool },
    SessionOpened { ok: bool },
}

/// The state of one activation.
pub struct ActivationFlow {
    pub stage: ActivationStage,
    pub status: bool,
    pub message: ActivationMessage,
    /// The mode stored with the code, if it names one.
    pub mode: Option<ActivationMode>,
    /// The new address of the user.
    pub receiver: Address,
    /// The PBM contract.
    pub pool: Address,
    /// The ERC-20 token contract.
    pub token: Address,
    /// The whole tokens that the sign-up list grants the user.
    pub tokens: i32,
    /// The hash of the funding transaction, empty while there is none.
    pub tx_hash: String,
}

/// The largest grant whose amount in cents fits an `i32`.
pub open spec fn max_tokens() -> int {
    21474836
}

/// The stage after the gas fee: funding only when tokens are granted.
pub open spec fn activation_stage_after_gas(f: ActivationFlow) -> ActivationFlow {
    if f.tokens > 0 {
        ActivationFlow { stage: ActivationStage::Approve, ..f }
    } else {
        activation_enter_account(f)
    }
}

/// Entering the account update: a code whose mode is neither email nor phone
/// fails the activation.
pub open spec fn activation_enter_account(f: ActivationFlow) -> ActivationFlow {
    match f.mode {
        Some(_) => ActivationFlow { stage: ActivationStage::ActivateAccount, ..f },
        None => ActivationFlow {
            stage: ActivationStage::Done,
            status: false,
            message: ActivationMessage::BadMode,
            ..f
        },
    }
}

/// A failure that ends the activation.
pub open spec fn activation_fail(f: ActivationFlow, m: ActivationMessage) -> ActivationFlow {
    ActivationFlow { stage: ActivationStage::Done, status: false, message: m, ..f }
}

/// The transition on one event; an event the stage does not wait for
/// changes nothing.
pub open spec fn activation_next(f: ActivationFlow, e: ActivationEvent) -> ActivationFlow {
    match (f.stage, e) {
        (ActivationStage::AddUser, ActivationEvent::TransactionSent { hash }) => match hash {
            None => activation_fail(f, ActivationMessage::AddUserFailed),
            Some(_) => ActivationFlow { stage: ActivationStage::GasFee, ..f },
        },
        (ActivationStage::GasFee, ActivationEvent::TransactionSent { hash }) => match hash {
            None => activation_fail(f, ActivationMessage::GasFeeFailed),
            Some(_) => activation_stage_after_gas(f),
        },
        (ActivationStage::Approve, ActivationEvent::TransactionSent { hash }) => match hash {
            None => activation_fail(f, ActivationMessage::ApproveFailed),
            Some(_) => ActivationFlow { stage: ActivationStage::Fund, ..f },
        },
        (ActivationStage::Fund, ActivationEvent::TransactionSent { hash }) => match hash {
            None => activation_fail(f, ActivationMessage::FundFailed),
            Some(h) => activation_enter_account(ActivationFlow { tx_hash: h, ..f }),
        },
        (ActivationStage::ActivateAccount, ActivationEvent::AccountActivated { ok }) => {
            if ok {
                ActivationFlow { stage: ActivationStage::OpenSession, ..f }
            } else {
                activation_fail(f, ActivationMessage::DatabaseFailed)
            }
        },
        (ActivationStage::OpenSession, ActivationEvent::SessionOpened { ok }) => {
            if ok {
                ActivationFlow { stage: ActivationStage::Done, ..f }
            } else {
                activation_fail(f, ActivationMessage::SessionFailed)
            }
        },
        _ => f,
    }
}

/// The action that a state asks for.
pub open spec fn activation_pending(f: ActivationFlow) -> ActivationAction {
    match f.stage {
        ActivationStage::AddUser => ActivationAction::SendTransaction,
        ActivationStage::GasFee => ActivationAction::SendTransaction,
        ActivationStage::Approve => ActivationAction::SendTransaction,
        ActivationStage::Fund => ActivationAction::SendTransaction,
        ActivationStage::ActivateAccount => ActivationAction::ActivateAccount { mode: f.mode->0 },
        ActivationStage::OpenSession => ActivationAction::OpenSession,
        ActivationStage::Done => ActivationAction::Respond { status: f.status, message: f.message },
    }
}

/// The amount funded, in cents of a token.
pub open spec fn funded_cents(tokens: i32) -> nat {
    (tokens * 100) as nat
}

/// The gas money sent to a new address: a tenth of an ether, in wei.
pub open spec fn gas_fee_wei() -> nat {
    100_000_000_000_000_000
}

/// The transaction that a sending stage asks for.
pub open spec fn activation_tx_matches(f: ActivationFlow, t: TxRequest) -> bool {
    match f.stage {
        ActivationStage::AddUser => {
            &&& t.to == f.pool
            &&& t.data@ == address_call("addUser(address)"@, f.receiver)
            &&& t.value.value() == 0
        },
        ActivationStage::GasFee => {
            &&& t.to == f.receiver
            &&& t.data@ == Seq::new(32, |i: int| 0u8)
            &&& t.value.value() == gas_fee_wei()
        },
        ActivationStage::Approve => {
            &&& t.to == f.token
            &&& t.data@ == abi_selector("approve(address,uint256)"@) + address_word(f.pool) + be_word(
                funded_cents(f.tokens),
            )
            &&& t.value.value() == 0
        },
        ActivationStage::Fund => {
            &&& t.to == f.pool
            &&& t.data@ == abi_selector("fundUser(address,uint256)"@) + address_word(f.receiver)
                + be_word(funded_cents(f.tokens))
            &&& t.value.value() == 0
        },
        _ => false,
    }
}

/// Whether a stage sends a transaction.
pub open spec fn activation_sends(stage: ActivationStage) -> bool {
    stage is AddUser || stage is GasFee || stage is Approve || stage is Fund
}

/// Whether `f` is the state in which an activation starts: the chain steps
/// come first, unless the new address does not parse.
pub open spec fn activation_started(
    f: ActivationFlow,
    mode: Option<ActivationMode>,
    address_text: Seq<char>,
    pool: Address,
    token: Address,
    tokens: i32,
) -> bool {
    &&& f.mode == mode
    &&& f.pool == pool
    &&& f.token == token
    &&& f.tokens == tokens
    &&& f.tx_hash@ == Seq::<char>::empty()
    &&& match parse_address_text(address_text) {
        Some(bytes) => {
            &&& f.stage == ActivationStage::AddUser
            &&& f.status
            &&& f.message == ActivationMessage::Activated
            &&& f.receiver.bytes@ == bytes
        },
        None => {
            &&& f.stage == ActivationStage::Done
            &&& !f.status
            &&& f.message == ActivationMessage::BadAddress
        },
    }
}

fn copy_mode(m: &ActivationMode) -> (r: ActivationMode)
    ensures
        r == *m,
{
    match m {
        ActivationMode::Email => ActivationMode::Email,
        ActivationMode::Phone => ActivationMode::Phone,
    }
}

fn copy_message(m: &ActivationMessage) -> (r: ActivationMessage)
    ensures
        r == *m,
{
    match m {
        ActivationMessage::Activated => ActivationMessage::Activated,
        ActivationMessage::BadAddress => ActivationMessage::BadAddress,
        ActivationMessage::AddUserFailed => ActivationMessage::AddUserFailed,
        ActivationMessage::GasFeeFailed => ActivationMessage::GasFeeFailed,
        ActivationMessage::ApproveFailed => ActivationMessage::ApproveFailed,
        ActivationMessage::FundFailed => ActivationMessage::FundFailed,
        ActivationMessage::DatabaseFailed => ActivationMessage::DatabaseFailed,
        ActivationMessage::BadMode => ActivationMessage::BadMode,
        ActivationMessage::SessionFailed => ActivationMessage::SessionFailed,
    }
}

impl ActivationFlow {
    /// Starts an activation: `mode` is the mode stored with the code,
    /// `address_text` the address of the newly generated key pair, `pool` and
    /// `token` the PBM and ERC-20 contracts, `tokens` the grant from the
    /// sign-up list (its amount in cents must fit an `i32`).
    pub fn start(
        mode: Option<ActivationMode>,
        address_text: &str,
        pool: Address,
        token: Address,
        tokens: i32,
    ) -> (f: ActivationFlow)
        requires
            tokens <= max_tokens(),
        ensures
            activation_started(f, mode, address_text@, pool, token, tokens),
    {
        match h160_from_str(address_text) {
            Some(receiver) => ActivationFlow {
                stage: ActivationStage::AddUser,
                status: true,
                message: ActivationMessage::Activated,
                mode,
                receiver,
                pool,
                token,
                tokens,
                tx_hash: String::new(),
            },
            None => ActivationFlow {
                stage: ActivationStage::Done,
                status: false,
                message: ActivationMessage::BadAddress,
                mode,
                receiver: Address { bytes: [0u8; 20] },
                pool,
                token,
                tokens,
                tx_hash: String::new(),
            },
        }
    }

    /// The action this state asks for.
    pub fn pending(&self) -> (a: ActivationAction)
        requires
            self.stage is ActivateAccount ==> self.mode is Some,
        ensures
            a == activation_pending(*self),
    {
        match self.stage {
            ActivationStage::AddUser => ActivationAction::SendTransaction,
            ActivationStage::GasFee => ActivationAction::SendTransaction,
            ActivationStage::Approve => ActivationAction::SendTransaction,
            ActivationStage::Fund => ActivationAction::SendTransaction,
            ActivationStage::ActivateAccount => {
                let m = match &self.mode {
                    Some(m) => copy_mode(m),
                    None => ActivationMode::Email,
                };
                ActivationAction::ActivateAccount { mode: m }
            },
            ActivationStage::OpenSession => ActivationAction::OpenSession,
            ActivationStage::Done => ActivationAction::Respond {
                status: self.status,
                message: copy_message(&self.message),
            },
        }
    }

    /// The transaction that a sending stage asks for.
    pub fn transaction(&self) -> (t: Option<TxRequest>)
        requires
            self.tokens <= max_tokens(),
            (self.stage is Approve || self.stage is Fund) ==> self.tokens > 0,
        ensures
            t is Some <==> activation_sends(self.stage),
            t matches Some(t) ==> activation_tx_matches(*self, t),
    {
        match self.stage {
            ActivationStage::AddUser => {
                let data = create_pbm_adduser_data(self.receiver).unwrap();
                Some(TxRequest { to: self.pool, data, value: Uint256::from_u64(0) })
            },
            ActivationStage::GasFee => {
                let wei = Uint256::from_u64(1_000_000_000_000_000_000);
                let value = u256_div(&wei, &Uint256::from_u64(10));
                let mut data: Vec<u8> = Vec::new();
                let mut i: usize = 0;
                while i < 32
                    invariant
                        i <= 32,
                        data@ == Seq::new(i as nat, |j: int| 0u8),
                    decreases 32 - i,
                {
                    data.push(0u8);
                    i = i + 1;
                    proof {
                        assert(data@ =~= Seq::new(i as nat, |j: int| 0u8));
                    }
                }
                Some(TxRequest { to: self.receiver, data, value })
            },
            ActivationStage::Approve => {
                let cents = Uint256::from_u64((self.tokens * 100) as u64);
                let data = create_erc20_approve_data(self.pool, cents).unwrap();
                Some(TxRequest { to: self.token, data, value: Uint256::from_u64(0) })
            },
            ActivationStage::Fund => {
                let cents = Uint256::from_u64((self.tokens * 100) as u64);
                let data = create_pbm_funduser_data(self.receiver, cents).unwrap();
                Some(TxRequest { to: self.pool, data, value: Uint256::from_u64(0) })
            },
            _ => None,
        }
    }

    fn enter_account(&mut self)
        ensures
            *final(self) == activation_enter_account(*old(self)),
    {
        match self.mode {
            Some(_) => {
                self.stage = ActivationStage::ActivateAccount;
            },
            None => {
                self.stage = ActivationStage::Done;
                self.status = false;
                self.message = ActivationMessage::BadMode;
            },
        }
    }

    fn fail(&mut self, m: ActivationMessage)
        ensures
            *final(self) == activation_fail(*old(self), m),
    {
        self.stage = ActivationStage::Done;
        self.status = false;
        self.message = m;
    }

    /// Takes in what the service reports.
    pub fn step(&mut self, event: ActivationEvent)
        ensures
            *final(self) == activation_next(*old(self), event),
    {
        match (&self.stage, event) {
            (ActivationStage::AddUser, ActivationEvent::TransactionSent { hash }) => match hash {
                None => self.fail(ActivationMessage::AddUserFailed),
                Some(_) => {
                    self.stage = ActivationStage::GasFee;
                },
            },
            (ActivationStage::GasFee, ActivationEvent::TransactionSent { hash }) => match hash {
                None => self.fail(ActivationMessage::GasFeeFailed),
                Some(_) => {
                    if self.tokens > 0 {
                        self.stage = ActivationStage::Approve;
                    } else {
                        self.enter_account();
                    }
                },
            },
            (ActivationStage::Approve, ActivationEvent::TransactionSent { hash }) => match hash {
                None => self.fail(ActivationMessage::ApproveFailed),
                Some(_) => {
                    self.stage = ActivationStage::Fund;
                },
            },
            (ActivationStage::Fund, ActivationEvent::TransactionSent { hash }) => match hash {
                None => self.fail(ActivationMessage::FundFailed),
                Some(h) => {
                    self.tx_hash = h;
                    self.enter_account();
                },
            },
            (ActivationStage::ActivateAccount, ActivationEvent::AccountActivated { ok }) => {
                if ok {
                    self.stage = ActivationStage::OpenSession;
                } else {
                    self.fail(ActivationMessage::DatabaseFailed);
                }
            },
            (ActivationStage::OpenSession, ActivationEvent::SessionOpened { ok }) => {
                if ok {
                    self.stage = ActivationStage::Done;
                } else {
                    self.fail(ActivationMessage::SessionFailed);
                }
            },
            _ => {},
        }
    }
}

/// What every reachable activation state keeps: funding stages only with a
/// positive grant whose cents fit an `i32`, and the account stage only with
/// a known mode. These are what `transaction` and `pending` ask for.
pub open spec fn activation_inv(f: ActivationFlow) -> bool {
    &&& f.tokens <= max_tokens()
    &&& (f.stage is Approve || f.stage is Fund) ==> f.tokens > 0
    &&& f.stage is ActivateAccount ==> f.mode is Some
}

/// Every activation state that a start and any events lead to keeps
/// `activation_inv`: no funding transaction is asked for without a positive
/// grant, and no account update without a known mode.
pub proof fn lemma_activation_inv(
    f: ActivationFlow,
    mode: Option<ActivationMode>,
    address_text: Seq<char>,
    pool: Address,
    token: Address,
    tokens: i32,
    e: ActivationEvent,
)
    ensures
        activation_started(f, mode, address_text, pool, token, tokens) && tokens <= max_tokens()
            ==> activation_inv(f),
        activation_inv(f) ==> activation_inv(activation_next(f, e)),
{
}

/// The answer the service gives to what a state asks for: the hashes of the
/// four transactions (`None` for a failed one), whether the account update
/// and the session succeed.
pub open spec fn activation_answer(
    f: ActivationFlow,
    add_user: Option<String>,
    gas_fee: Option<String>,
    approve: Option<String>,
    fund: Option<String>,
    account_ok: bool,
    session_ok: bool,
) -> ActivationEvent {
    match f.stage {
        ActivationStage::AddUser => ActivationEvent::TransactionSent { hash: add_user },
        ActivationStage::GasFee => ActivationEvent::TransactionSent { hash: gas_fee },
        ActivationStage::Approve => ActivationEvent::TransactionSent { hash: approve },
        ActivationStage::Fund => ActivationEvent::TransactionSent { hash: fund },
        ActivationStage::ActivateAccount => ActivationEvent::AccountActivated { ok: account_ok },
        _ => ActivationEvent::SessionOpened { ok: session_ok },
    }
}

/// `n` steps of an activation answered as above.
pub open spec fn activation_run(
    f: ActivationFlow,
    n: nat,
    add_user: Option<String>,
    gas_fee: Option<String>,
    approve: Option<String>,
    fund: Option<String>,
    account_ok: bool,
    session_ok: bool,
) -> ActivationFlow
    decreases n,
{
    if n == 0 {
        f
    } else {
        activation_run(
            activation_next(
                f,
                activation_answer(f, add_user, gas_fee, approve, fund, account_ok, session_ok),
            ),
            (n - 1) as nat,
            add_user,
            gas_fee,
            approve,
            fund,
            account_ok,
            session_ok,
        )
    }
}

/// The message of a finished activation: the first failure, in the order
/// address, PBM registration, gas fee, approval, funding, mode, account
/// update, session.
pub open spec fn activation_final_message(
    address_ok: bool,
    mode: Option<ActivationMode>,
    tokens: i32,
    add_user: Option<String>,
    gas_fee: Option<String>,
    approve: Option<String>,
    fund: Option<String>,
    account_ok: bool,
    session_ok: bool,
) -> ActivationMessage {
    if !address_ok {
        ActivationMessage::BadAddress
    } else if add_user is None {
        ActivationMessage::AddUserFailed
    } else if gas_fee is None {
        ActivationMessage::GasFeeFailed
    } else if tokens > 0 && approve is None {
        ActivationMessage::ApproveFailed
    } else if tokens > 0 && fund is None {
        ActivationMessage::FundFailed
    } else if mode is None {
        ActivationMessage::BadMode
    } else if !account_ok {
        ActivationMessage::DatabaseFailed
    } else if !session_ok {
        ActivationMessage::SessionFailed
    } else {
        ActivationMessage::Activated
    }
}

/// An activation whose actions are all answered ends within seven steps.
/// It succeeds exactly when nothing fails: the address parses, the PBM
/// registration and gas fee go through, a positive grant is approved and
/// funded, the mode is known and the account update and session succeed.
/// Its message is the first failure, and a successful activation records
/// the funding transaction's hash (or none when nothing was granted).
pub proof fn lemma_activation_outcome(
    f: ActivationFlow,
    mode: Option<ActivationMode>,
    address_text: Seq<char>,
    pool: Address,
    token: Address,
    tokens: i32,
    add_user: Option<String>,
    gas_fee: Option<String>,
    approve: Option<String>,
    fund: Option<String>,
    account_ok: bool,
    session_ok: bool,
)
    requires
        activation_started(f, mode, address_text, pool, token, tokens),
    ensures
        ({
            let g = activation_run(f, 7, add_user, gas_fee, approve, fund, account_ok, session_ok);
            let address_ok = parse_address_text(address_text) is Some;
            &&& g.stage == ActivationStage::Done
            &&& g.message == activation_final_message(
                address_ok,
                mode,
                tokens,
                add_user,
                gas_fee,
                approve,
                fund,
                account_ok,
                session_ok,
            )
            &&& g.status == (g.message == ActivationMessage::Activated)
            &&& g.status ==> g.tx_hash@ == (if tokens > 0 {
                fund->0@
            } else {
                Seq::<char>::empty()
            })
        }),
{
    reveal_with_fuel(activation_run, 8);
}

/// An activation started with the address text of a new key pair, as
/// `gen_key` writes it, goes on to the chain: the address always reads back,
/// and the new user's address is the one the key controls.
pub proof fn lemma_generated_address_activates(
    f: ActivationFlow,
    mode: Option<ActivationMode>,
    secret: Seq<u8>,
    pool: Address,
    token: Address,
    tokens: i32,
)
    requires
        secret_key_address(secret).len() == 20,
        activation_started(
            f,
            mode,
            prefixed_hex(secret_key_address(secret)),
            pool,
            token,
            tokens,
        ),
    ensures
        f.stage == ActivationStage::AddUser,
        f.status,
        f.receiver.bytes@ == secret_key_address(secret),
{
    lemma_address_text_round_trip(secret_key_address(secret));
}

/// An activation finishes successfully only by the step that answers its
/// session action, the action that deletes the activation code: no other
/// step leads from an unfinished state to a finished, successful one.
pub proof fn lemma_success_only_after_session(f: ActivationFlow, e: ActivationEvent)
    ensures
        !(f.stage is Done) && activation_next(f, e).stage is Done && activation_next(f, e).status
            ==> f.stage is OpenSession,
{
}

proof fn lemma_run_keeps_mode(
    f: ActivationFlow,
    n: nat,
    add_user: Option<String>,
    gas_fee: Option<String>,
    approve: Option<String>,
    fund: Option<String>,
    account_ok: bool,
    session_ok: bool,
)
    ensures
        activation_run(f, n, add_user, gas_fee, approve, fund, account_ok, session_ok).mode
            == f.mode,
    decreases n,
{
    if n > 0 {
        let g = activation_next(
            f,
            activation_answer(f, add_user, gas_fee, approve, fund, account_ok, session_ok),
        );
        lemma_run_keeps_mode(g, (n - 1) as nat, add_user, gas_fee, approve, fund, account_ok, session_ok);
    }
}

/// The account update names the mode stored with the code, whatever the
/// grant and whatever the chain answered: at any point of an activation
/// started with mode `Some(m)`, a state that asks to activate the account
/// asks for mode `m`.
pub proof fn lemma_account_update_uses_stored_mode(
    f: ActivationFlow,
    m: ActivationMode,
    address_text: Seq<char>,
    pool: Address,
    token: Address,
    tokens: i32,
    n: nat,
    add_user: Option<String>,
    gas_fee: Option<String>,
    approve: Option<String>,
    fund: Option<String>,
    account_ok: bool,
    session_ok: bool,
)
    requires
        activation_started(f, Some(m), address_text, pool, token, tokens),
    ensures
        ({
            let g = activation_run(f, n, add_user, gas_fee, approve, fund, account_ok, session_ok);
            g.stage is ActivateAccount ==> activation_pending(g)
                == ActivationAction::ActivateAccount { mode: m }
        }),
{
    lemma_run_keeps_mode(f, n, add_user, gas_fee, approve, fund, account_ok, session_ok);
}

} // verus!
