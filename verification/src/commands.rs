//! The operator-facing command surface: creating a hold-invoice and
//! resolving it as accepted or rejected.
//!
//! Commands arrive as loosely shaped values; this module validates them
//! against a closed parameter set before any side effect, computes the
//! invoice order (with the timelock requirement the hold policy demands),
//! and produces the decision-store writes. The surrounding binary carries
//! the order and the writes to the node.

use vstd::prelude::*;
use crate::state::{str_eq, Hodlstate};
use crate::store::{key_view, resolve_record_write, spec_record_key, DatastoreWrite, WriteMode};

verus! {

/// A command argument value, reduced to the shapes the commands read.
/// Anything else a caller may pass — a float, a negative number, a null, a
/// nested object — is `Other`, and is rejected wherever a typed field is
/// expected.
#[derive(Debug)]
pub enum ArgVal {
    /// A non-negative integer.
    Num(u64),
    /// A text.
    Text(String),
    /// A boolean.
    Flag(bool),
    /// An array of values.
    List(Vec<ArgVal>),
    /// An object: key/value pairs in their original order.
    Object(Vec<(String, ArgVal)>),
    /// Any value of a shape no command accepts.
    Other,
}

/// How a command can be refused. Refusals happen before any side effect.
#[derive(Debug, Clone, PartialEq, Eq)]
pub enum CmdError {
    /// The arguments as a whole have the wrong shape.
    InvalidArguments,
    /// A parameter name outside the closed set (the offending name).
    UnknownKey(String),
    MissingAmount,
    InvalidAmount,
    MissingDescription,
    InvalidDescription,
    MissingLabel,
    InvalidLabel,
    InvalidExpiry,
    /// `fallbacks` is present but not an array.
    InvalidFallbacks,
    /// An entry of `fallbacks` is not a text.
    InvalidFallbackEntry,
    InvalidPreimage,
    InvalidExposePrivate,
    InvalidDeschashonly,
    /// accept/reject take exactly one argument.
    NotExactlyOneKey,
    /// The one argument of accept/reject is not a text.
    KeyNotText,
}

/// Two refusals are the same when they are the same variant and any carried
/// name reads the same.
pub open spec fn same_cmd_error(a: CmdError, b: CmdError) -> bool {
    match (a, b) {
        (CmdError::UnknownKey(x), CmdError::UnknownKey(y)) => x@ == y@,
        _ => a == b,
    }
}

/// The value under a key in an object, by first match in order.
pub open spec fn obj_get(pairs: Seq<(String, ArgVal)>, k: Seq<char>) -> Option<ArgVal>
    decreases pairs.len(),
{
    if pairs.len() == 0 {
        None
    } else if pairs[0].0@ == k {
        Some(pairs[0].1)
    } else {
        obj_get(pairs.drop_first(), k)
    }
}

/// The closed set of parameter names the add command recognizes.
pub open spec fn valid_add_key(k: Seq<char>) -> bool {
    ||| k == "amount_msat"@
    ||| k == "description"@
    ||| k == "label"@
    ||| k == "expiry"@
    ||| k == "fallbacks"@
    ||| k == "preimage"@
    ||| k == "exposeprivatechannels"@
    ||| k == "deschashonly"@
}

/// The first parameter name outside the closed set, in order, if any.
pub open spec fn first_unknown_key(pairs: Seq<(String, ArgVal)>) -> Option<String>
    decreases pairs.len(),
{
    if pairs.len() == 0 {
        None
    } else if !valid_add_key(pairs[0].0@) {
        Some(pairs[0].0)
    } else {
        first_unknown_key(pairs.drop_first())
    }
}

/// Whether every entry of a list is a text.
pub open spec fn all_texts(items: Seq<ArgVal>) -> bool {
    forall|i: int| 0 <= i < items.len() ==> items[i] is Text
}

/// Why the add command refuses an argument object, if it does: the checks in
/// the order they are made — the closed parameter set first, then the three
/// required fields, then each optional field's type.
pub open spec fn add_args_error(pairs: Seq<(String, ArgVal)>) -> Option<CmdError> {
    if first_unknown_key(pairs) is Some {
        Some(CmdError::UnknownKey(first_unknown_key(pairs)->Some_0))
    } else if obj_get(pairs, "amount_msat"@) is None {
        Some(CmdError::MissingAmount)
    } else if !(obj_get(pairs, "amount_msat"@)->Some_0 is Num) {
        Some(CmdError::InvalidAmount)
    } else if obj_get(pairs, "description"@) is None {
        Some(CmdError::MissingDescription)
    } else if !(obj_get(pairs, "description"@)->Some_0 is Text) {
        Some(CmdError::InvalidDescription)
    } else if obj_get(pairs, "label"@) is None {
        Some(CmdError::MissingLabel)
    } else if !(obj_get(pairs, "label"@)->Some_0 is Text) {
        Some(CmdError::InvalidLabel)
    } else if obj_get(pairs, "expiry"@) matches Some(v) && !(v is Num) {
        Some(CmdError::InvalidExpiry)
    } else if obj_get(pairs, "fallbacks"@) matches Some(v) && !(v is List) {
        Some(CmdError::InvalidFallbacks)
    } else if obj_get(pairs, "fallbacks"@) matches Some(ArgVal::List(items)) && !all_texts(
        items@,
    ) {
        Some(CmdError::InvalidFallbackEntry)
    } else if obj_get(pairs, "preimage"@) matches Some(v) && !(v is Text) {
        Some(CmdError::InvalidPreimage)
    } else if obj_get(pairs, "exposeprivatechannels"@) matches Some(v) && !(v is Flag) {
        Some(CmdError::InvalidExposePrivate)
    } else if obj_get(pairs, "deschashonly"@) matches Some(v) && !(v is Flag) {
        Some(CmdError::InvalidDeschashonly)
    } else {
        None
    }
}

/// The invoice the node is asked to mint for a new hold-invoice: the
/// validated parameters, and the timelock requirement the hold policy
/// demands.
#[derive(Debug, Clone, PartialEq, Eq)]
pub struct InvoiceOrder {
    pub amount_msat: u64,
    pub description: String,
    pub label: String,
    pub expiry: Option<u64>,
    pub fallbacks: Option<Vec<String>>,
    pub preimage: Option<String>,
    pub exposeprivatechannels: Option<bool>,
    pub deschashonly: Option<bool>,
    pub cltv: u32,
}

/// Whether an order carries exactly the validated fields of the argument
/// object, with the timelock requirement set to the hold safety margin plus
/// the configured delta.
pub open spec fn order_matches(order: InvoiceOrder, pairs: Seq<(String, ArgVal)>, cltv_delta: u32) -> bool {
    &&& obj_get(pairs, "amount_msat"@) matches Some(ArgVal::Num(n)) && order.amount_msat == n
    &&& obj_get(pairs, "description"@) matches Some(ArgVal::Text(d)) && order.description@ == d@
    &&& obj_get(pairs, "label"@) matches Some(ArgVal::Text(l)) && order.label@ == l@
    &&& match obj_get(pairs, "expiry"@) {
        Some(v) => v matches ArgVal::Num(e) && order.expiry == Some(e),
        None => order.expiry is None,
    }
    &&& match obj_get(pairs, "fallbacks"@) {
        Some(v) => v matches ArgVal::List(items) && order.fallbacks matches Some(fb) && fb@.len()
            == items.len() && (forall|i: int|
            0 <= i < items.len() ==> items[i] is Text && fb@[i]@ == items[i]->Text_0@),
        None => order.fallbacks is None,
    }
    &&& match obj_get(pairs, "preimage"@) {
        Some(v) => v matches ArgVal::Text(p) && order.preimage matches Some(q) && q@ == p@,
        None => order.preimage is None,
    }
    &&& match obj_get(pairs, "exposeprivatechannels"@) {
        Some(v) => v matches ArgVal::Flag(b) && order.exposeprivatechannels == Some(b),
        None => order.exposeprivatechannels is None,
    }
    &&& match obj_get(pairs, "deschashonly"@) {
        Some(v) => v matches ArgVal::Flag(b) && order.deschashonly == Some(b),
        None => order.deschashonly is None,
    }
    &&& order.cltv == crate::CLTV_HODL + cltv_delta
}

/// The add command: validate the arguments against the closed parameter set
/// and build the invoice order. The order is refused, with the first
/// applicable error, rather than defaulted; nothing is minted or written for
/// a refused order.
#[verifier::loop_isolation(false)]
pub fn hodlvoiceadd(args: &ArgVal, cltv_delta: u32) -> (r: Result<InvoiceOrder, CmdError>)
    requires
        cltv_delta <= u32::MAX - crate::CLTV_HODL,
    ensures
        !(args is Object) ==> r == Err::<InvoiceOrder, CmdError>(CmdError::InvalidArguments),
        args matches ArgVal::Object(pairs) ==> match add_args_error(pairs@) {
            Some(e) => r matches Err(e2) && same_cmd_error(e2, e),
            None => r matches Ok(order) && order_matches(order, pairs@, cltv_delta),
        },
{
    let pairs = match args {
        ArgVal::Object(pairs) => pairs,
        _ => {
            return Err(CmdError::InvalidArguments);
        },
    };
    let mut i: usize = 0;
    while i < pairs.len()
        invariant
            i <= pairs@.len(),
            forall|j: int| 0 <= j < i ==> valid_add_key(pairs@[j].0@),
        decreases pairs@.len() - i,
    {
        let k = pairs[i].0.as_str();
        let known = str_eq(k, "amount_msat") || str_eq(k, "description") || str_eq(k, "label")
            || str_eq(k, "expiry") || str_eq(k, "fallbacks") || str_eq(k, "preimage") || str_eq(
            k,
            "exposeprivatechannels",
        ) || str_eq(k, "deschashonly");
        if !known {
            proof {
                lemma_first_unknown_skip(pairs@, i as int);
            }
            return Err(CmdError::UnknownKey(pairs[i].0.clone()));
        }
        i += 1;
    }
    proof {
        lemma_first_unknown_skip(pairs@, pairs@.len() as int);
    }

    let amount_msat: u64 = match obj_get_exec(pairs, "amount_msat") {
        None => {
            return Err(CmdError::MissingAmount);
        },
        Some(v) => match v {
            ArgVal::Num(n) => *n,
            _ => {
                return Err(CmdError::InvalidAmount);
            },
        },
    };
    let description: String = match obj_get_exec(pairs, "description") {
        None => {
            return Err(CmdError::MissingDescription);
        },
        Some(v) => match v {
            ArgVal::Text(s) => s.clone(),
            _ => {
                return Err(CmdError::InvalidDescription);
            },
        },
    };
    let label: String = match obj_get_exec(pairs, "label") {
        None => {
            return Err(CmdError::MissingLabel);
        },
        Some(v) => match v {
            ArgVal::Text(s) => s.clone(),
            _ => {
                return Err(CmdError::InvalidLabel);
            },
        },
    };
    let expiry: Option<u64> = match obj_get_exec(pairs, "expiry") {
        None => None,
        Some(v) => match v {
            ArgVal::Num(e) => Some(*e),
            _ => {
                return Err(CmdError::InvalidExpiry);
            },
        },
    };
    let fallbacks: Option<Vec<String>> = match obj_get_exec(pairs, "fallbacks") {
        None => None,
        Some(v) => match v {
            ArgVal::List(items) => {
                let mut fb: Vec<String> = Vec::new();
                let mut j: usize = 0;
                while j < items.len()
                    invariant
                        j <= items@.len(),
                        fb@.len() == j,
                        forall|t: int|
                            0 <= t < j ==> items@[t] is Text && fb@[t]@ == items@[t]->Text_0@,
                    decreases items@.len() - j,
                {
                    match &items[j] {
                        ArgVal::Text(s) => {
                            fb.push(s.clone());
                        },
                        _ => {
                            return Err(CmdError::InvalidFallbackEntry);
                        },
                    }
                    j += 1;
                }
                Some(fb)
            },
            _ => {
                return Err(CmdError::InvalidFallbacks);
            },
        },
    };
    let preimage: Option<String> = match obj_get_exec(pairs, "preimage") {
        None => None,
        Some(v) => match v {
            ArgVal::Text(s) => Some(s.clone()),
            _ => {
                return Err(CmdError::InvalidPreimage);
            },
        },
    };
    let exposeprivatechannels: Option<bool> = match obj_get_exec(pairs, "exposeprivatechannels") {
        None => None,
        Some(v) => match v {
            ArgVal::Flag(b) => Some(*b),
            _ => {
                return Err(CmdError::InvalidExposePrivate);
            },
        },
    };
    let deschashonly: Option<bool> = match obj_get_exec(pairs, "deschashonly") {
        None => None,
        Some(v) => match v {
            ArgVal::Flag(b) => Some(*b),
            _ => {
                return Err(CmdError::InvalidDeschashonly);
            },
        },
    };
    Ok(
        InvoiceOrder {
            amount_msat,
            description,
            label,
            expiry,
            fallbacks,
            preimage,
            exposeprivatechannels,
            deschashonly,
            cltv: crate::CLTV_HODL + cltv_delta,
        },
    )
}

/// Why a resolve command (accept/reject) refuses its arguments, if it does:
/// they must be an array of exactly one text, the key of the record.
pub open spec fn resolve_args_error(args: ArgVal) -> Option<CmdError> {
    match args {
        ArgVal::List(a) => if a@.len() != 1 {
            Some(CmdError::NotExactlyOneKey)
        } else if !(a@[0] is Text) {
            Some(CmdError::KeyNotText)
        } else {
            None
        },
        _ => Some(CmdError::InvalidArguments),
    }
}

/// What a successful resolve command hands back: the replace-only write that
/// records the decision under the key named by the one argument.
pub open spec fn resolve_write_matches(r: Result<DatastoreWrite, CmdError>, args: ArgVal, state: Hodlstate) -> bool {
    match resolve_args_error(args) {
        Some(e) => r == Err::<DatastoreWrite, CmdError>(e),
        None => {
            &&& r matches Ok(w)
            &&& args matches ArgVal::List(a)
            &&& a@[0] matches ArgVal::Text(h)
            &&& key_view(w.key@) == spec_record_key(h@)
            &&& w.string@ == state.wire_text()
            &&& w.mode == WriteMode::MustReplace
        },
    }
}

/// Shared body of the two resolve commands.
fn resolve_command(args: &ArgVal, state: Hodlstate) -> (r: Result<DatastoreWrite, CmdError>)
    ensures
        resolve_write_matches(r, *args, state),
{
    match args {
        ArgVal::List(a) => {
            if a.len() != 1 {
                Err(CmdError::NotExactlyOneKey)
            } else {
                match &a[0] {
                    ArgVal::Text(h) => Ok(resolve_record_write(h.as_str(), state)),
                    _ => Err(CmdError::KeyNotText),
                }
            }
        },
        _ => Err(CmdError::InvalidArguments),
    }
}

/// The accept command: record `Accept` for the named key, replace-only.
pub fn hodlvoiceaccept(args: &ArgVal) -> (r: Result<DatastoreWrite, CmdError>)
    ensures
        resolve_write_matches(r, *args, Hodlstate::Accept),
{
    resolve_command(args, Hodlstate::Accept)
}

/// The reject command: record `Reject` for the named key, replace-only.
pub fn hodlvoicereject(args: &ArgVal) -> (r: Result<DatastoreWrite, CmdError>)
    ensures
        resolve_write_matches(r, *args, Hodlstate::Reject),
{
    resolve_command(args, Hodlstate::Reject)
}

/// The value under a key, by first match in order.
fn obj_get_exec<'a>(pairs: &'a Vec<(String, ArgVal)>, key: &str) -> (r: Option<&'a ArgVal>)
    ensures
        match r {
            Some(v) => obj_get(pairs@, key@) == Some(*v),
            None => obj_get(pairs@, key@) is None,
        },
{
    let mut i: usize = 0;
    while i < pairs.len()
        invariant
            i <= pairs@.len(),
            forall|j: int| 0 <= j < i ==> pairs@[j].0@ != key@,
        decreases pairs@.len() - i,
    {
        if str_eq(pairs[i].0.as_str(), key) {
            proof {
                lemma_obj_get_skip(pairs@, key@, i as int);
            }
            return Some(&pairs[i].1);
        }
        i += 1;
    }
    proof {
        lemma_obj_get_skip(pairs@, key@, pairs@.len() as int);
    }
    None
}

/// Looking a key up skips any prefix of pairs under other keys.
proof fn lemma_obj_get_skip(pairs: Seq<(String, ArgVal)>, k: Seq<char>, i: int)
    requires
        0 <= i <= pairs.len(),
        forall|j: int| 0 <= j < i ==> pairs[j].0@ != k,
    ensures
        obj_get(pairs, k) == obj_get(pairs.skip(i), k),
    decreases i,
{
    if i > 0 {
        let rest = pairs.drop_first();
        assert(forall|j: int| 0 <= j < i - 1 ==> rest[j].0@ != k);
        lemma_obj_get_skip(rest, k, i - 1);
        assert(rest.skip(i - 1) =~= pairs.skip(i));
    } else {
        assert(pairs.skip(0) =~= pairs);
    }
}

/// The scan for an unknown key skips any prefix of recognized keys.
proof fn lemma_first_unknown_skip(pairs: Seq<(String, ArgVal)>, i: int)
    requires
        0 <= i <= pairs.len(),
        forall|j: int| 0 <= j < i ==> valid_add_key(pairs[j].0@),
    ensures
        first_unknown_key(pairs) == first_unknown_key(pairs.skip(i)),
    decreases i,
{
    if i > 0 {
        let rest = pairs.drop_first();
        assert(forall|j: int| 0 <= j < i - 1 ==> rest[j].0@ == pairs[j + 1].0@);
        lemma_first_unknown_skip(rest, i - 1);
        assert(rest.skip(i - 1) =~= pairs.skip(i));
    } else {
        assert(pairs.skip(0) =~= pairs);
    }
}

} // verus!
