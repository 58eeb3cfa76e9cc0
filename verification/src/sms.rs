//! SMS delivery: the providers and the reading of a Tencent Cloud reply.
use vstd::prelude::*;
use crate::text::str_eq;

verus! {

/// The SMS providers the service can use.
pub enum SmsProvider {
    Tencent,
    Twilio,
}

/// One entry of the send-status list in a Tencent Cloud `SendSms` reply.
pub struct SendStatus {
    pub phone_number: String,
    pub code: String,
    pub message: String,
}

/// The outcome of a Tencent Cloud delivery: the first status entry for the
/// destination number decides (its message, as success when its code is
/// `Ok`); without such an entry the delivery failed.
pub open spec fn tencent_outcome_of(dest: Seq<char>, statuses: Seq<SendStatus>) -> Result<
    Seq<char>,
    Seq<char>,
>
    decreases statuses.len(),
{
    if statuses.len() == 0 {
        Err("Deliver failed"@)
    } else if statuses[0].phone_number@ == dest {
        if statuses[0].code@ == "Ok"@ {
            Ok(statuses[0].message@)
        } else {
            Err(statuses[0].message@)
        }
    } else {
        tencent_outcome_of(dest, statuses.drop_first())
    }
}

/// A result of texts as a result of character sequences.
pub open spec fn result_view(r: Result<String, String>) -> Result<Seq<char>, Seq<char>> {
    match r {
        Ok(s) => Ok(s@),
        Err(s) => Err(s@),
    }
}

/// The outcome of a Tencent Cloud delivery to `dest`, from the reply's
/// send-status list (absent when the reply has none).
pub fn tencent_outcome(dest: &str, statuses: Option<Vec<SendStatus>>) -> (res: Result<String, String>)
    ensures
        statuses is None ==> result_view(res) == Err::<Seq<char>, Seq<char>>("Deliver failed"@),
        statuses matches Some(v) ==> result_view(res) == tencent_outcome_of(dest@, v@),
{
    let ghost given = statuses;
    let list = match statuses {
        Some(v) => v,
        None => return Err(String::from_str("Deliver failed")),
    };
    assert(given == Some(list));
    let ghost all = list@;
    let mut i: usize = 0;
    proof {
        assert(all.skip(0) =~= all);
    }
    while i < list.len()
        invariant
            i <= list@.len(),
            all == list@,
            given == Some(list),
            given == statuses,
            tencent_outcome_of(dest@, all) == tencent_outcome_of(dest@, all.skip(i as int)),
        decreases list@.len() - i,
    {
        let s = &list[i];
        proof {
            assert(all.skip(i as int)[0] == all[i as int]);
            assert(all.skip(i as int).drop_first() =~= all.skip(i + 1));
        }
        if str_eq(s.phone_number.as_str(), dest) {
            if str_eq(s.code.as_str(), "Ok") {
                return Ok(String::from_str(s.message.as_str()));
            } else {
                return Err(String::from_str(s.message.as_str()));
            }
        }
        i = i + 1;
    }
    proof {
        assert(all.skip(i as int) =~= Seq::<SendStatus>::empty());
    }
    Err(String::from_str("Deliver failed"))
}

} // verus!
