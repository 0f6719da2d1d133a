use vstd::prelude::*;

use zbus::zvariant::Value;

use crate::error::RejectionReason;
use crate::trusted::TrustedStr;
use crate::wire::{byte_value, value_of_byte};

verus! {

/// How urgent a notification is.
#[derive(Clone, Copy, Debug, PartialEq, Eq, Structural)]
pub enum Urgency {
    Low,
    Normal,
    Critical,
}

/// The numeric code of an urgency level on the wire.
pub open spec fn urgency_code(u: Urgency) -> u8 {
    match u {
        Urgency::Low => 0,
        Urgency::Normal => 1,
        Urgency::Critical => 2,
    }
}

impl Urgency {
    /// The numeric code sent for this urgency level.
    pub fn code(&self) -> (r: u8)
        ensures
            r == urgency_code(*self),
    {
        match self {
            Urgency::Low => 0,
            Urgency::Normal => 1,
            Urgency::Critical => 2,
        }
    }
}

/// The key under which the urgency hint is sent.
pub open spec fn urgency_key() -> Seq<char> {
    seq!['u', 'r', 'g', 'e', 'n', 'c', 'y']
}

/// The hints that a request carries for the given urgency: one entry,
/// `"urgency"` with the level's code, or none at all.
pub open spec fn hints_match(urgency: Option<Urgency>, hints: Seq<(String, Value<'static>)>) -> bool {
    match urgency {
        None => hints.len() == 0,
        Some(u) => {
            &&& hints.len() == 1
            &&& hints[0].0@ == urgency_key()
            &&& hints[0].1 == byte_value(urgency_code(u))
        },
    }
}

/// A notification request, ready to hand to the notification service.
pub struct NotificationRequest {
    /// Application name; always empty.
    pub app_name: String,
    /// Id of a notification that this one replaces; zero for none.
    pub replaces_id: u32,
    /// Icon name; always empty.
    pub icon: String,
    pub summary: String,
    pub body: String,
    /// Alternating action keys and labels.
    pub actions: Vec<String>,
    /// Named side-channel values for the service.
    pub hints: Vec<(String, Value<'static>)>,
    /// Expiry in milliseconds; minus one leaves it to the service.
    pub expire_timeout: i32,
}

/// Whether `actions` holds the texts of `marked`, in order.
pub open spec fn same_texts(actions: Seq<String>, marked: Seq<TrustedStr>) -> bool {
    &&& actions.len() == marked.len()
    &&& forall|i: int| 0 <= i < actions.len() ==> #[trigger] actions[i]@ == marked[i]@
}

/// Builds the request for the given fields. A timeout below minus one is
/// refused; otherwise the request carries the fields unchanged, the action
/// texts in order, an empty application name and icon, and an urgency hint
/// exactly when an urgency is given.
pub fn build_request(
    replaces: u32,
    summary: TrustedStr,
    body: TrustedStr,
    actions: Vec<TrustedStr>,
    urgency: Option<Urgency>,
    expire_timeout: i32,
) -> (r: Result<NotificationRequest, RejectionReason>)
    ensures
        r is Err <==> expire_timeout < -1,
        r matches Err(e) ==> e == RejectionReason::UnsupportedTimeout,
        r matches Ok(q) ==> {
            &&& q.app_name@.len() == 0
            &&& q.icon@.len() == 0
            &&& q.replaces_id == replaces
            &&& q.summary@ == summary@
            &&& q.body@ == body@
            &&& same_texts(q.actions@, actions@)
            &&& hints_match(urgency, q.hints@)
            &&& q.expire_timeout == expire_timeout
        },
{
    if expire_timeout < -1 {
        return Err(RejectionReason::UnsupportedTimeout);
    }
    let mut texts: Vec<String> = Vec::new();
    let mut i: usize = 0;
    while i < actions.len()
        invariant
            i <= actions@.len(),
            same_texts(texts@, actions@.subrange(0, i as int)),
        decreases actions@.len() - i,
    {
        texts.push(actions[i].inner().clone());
        i += 1;
    }
    assert(actions@.subrange(0, actions@.len() as int) =~= actions@);
    let mut hints: Vec<(String, Value<'static>)> = Vec::new();
    match urgency {
        Some(u) => {
            let key = "urgency".to_string();
            proof {
                reveal_strlit("urgency");
                assert(key@ =~= urgency_key());
            }
            hints.push((key, value_of_byte(u.code())));
        },
        None => {},
    }
    Ok(
        NotificationRequest {
            app_name: String::new(),
            replaces_id: replaces,
            icon: String::new(),
            summary: summary.inner().clone(),
            body: body.inner().clone(),
            actions: texts,
            hints,
            expire_timeout,
        },
    )
}

} // verus!
