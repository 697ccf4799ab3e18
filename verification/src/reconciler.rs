//! Reconciliation of settled calls. Each operation has one continuation,
//! which sees nothing but the result delivered to it and turns it into the
//! operation's response. A failed call is absorbed into a sentinel: the
//! empty text, or `false`. A balance payload that does not answer the
//! question asked is a violation of the collaborator's contract, and is
//! never answered with a sentinel.

use crate::contract::Contract;
use crate::dispatch::Operation;
use near_sdk::PromiseError;
use serde_json::Value;
use vstd::prelude::*;

verus! {

/// `near_sdk::PromiseError`: why a settled call has no result.
#[verifier::external_type_specification]
#[verifier::external_body]
pub struct ExPromiseError(near_sdk::PromiseError);

/// `serde_json::Value`: the payload of a balance query.
#[verifier::external_type_specification]
#[verifier::external_body]
pub struct ExValue(serde_json::Value);

/// The members of a JSON value: where the value is an object, each of its
/// keys, mapped to the content of its member where that member is a JSON
/// string and to nothing where it is anything else; no key at all where the
/// value is no object.
pub uninterp spec fn members(payload: serde_json::Value) -> Map<Seq<char>, Option<Seq<char>>>;

/// What a lookup found, by its text.
pub open spec fn found_text(found: Option<Option<String>>) -> Option<Option<Seq<char>>> {
    match found {
        None => None,
        Some(None) => Some(None),
        Some(Some(text)) => Some(Some(text@)),
    }
}

/// The entry of `key` among the members of `payload`, if it has one.
pub open spec fn member_of(payload: Value, key: Seq<char>) -> Option<Option<Seq<char>>> {
    if members(payload).contains_key(key) {
        Some(members(payload)[key])
    } else {
        None
    }
}

/// Calls `serde_json::Value::get` with a string key, and
/// `serde_json::Value::as_str` on the member that it hands out. Trusted:
/// `get` finds a member only in an object that holds the key, and `as_str`
/// gives the content of a member that is a JSON string and nothing for any
/// other; so the result is the entry of `key` among the members.
#[verifier::external_body]
fn member(payload: &Value, key: &str) -> (found: Option<Option<String>>)
    ensures
        members(*payload).contains_key(key@) ==> found_text(found) == Some(
            members(*payload)[key@],
        ),
        !members(*payload).contains_key(key@) ==> found is None,
{
    payload.get(key).map(|member| member.as_str().map(|text| text.to_owned()))
}

/// A collaborator's payload did not hold what its contract promises.
#[derive(Clone, Copy, Debug, PartialEq, Eq, Structural)]
pub enum ResponseContractViolation {
    /// The balance payload holds nothing for the token asked for.
    BalanceMissing,
    /// The balance payload holds something other than text for the token
    /// asked for.
    BalanceNotText,
}

/// The response to a deposit: the credited amount as the collaborator
/// reported it, or the empty text where the call failed.
pub open spec fn deposit_response(call_result: Result<String, PromiseError>) -> Seq<char> {
    match call_result {
        Ok(credited) => credited@,
        Err(_) => Seq::empty(),
    }
}

/// The response to a balance query, from what the payload holds for the
/// token asked for: that balance, the empty text where the call failed, and
/// a violation where the call succeeded without a text balance.
pub open spec fn balance_outcome(settled: Result<Option<Option<Seq<char>>>, PromiseError>)
    -> Result<Seq<char>, ResponseContractViolation> {
    match settled {
        Err(_) => Ok(Seq::empty()),
        Ok(Some(Some(balance))) => Ok(balance),
        Ok(Some(None)) => Err(ResponseContractViolation::BalanceNotText),
        Ok(None) => Err(ResponseContractViolation::BalanceMissing),
    }
}

/// What a settled balance query holds for `token_id`.
pub open spec fn balance_lookup(token_id: Seq<char>, call_result: Result<Value, PromiseError>)
    -> Result<Option<Option<Seq<char>>>, PromiseError> {
    match call_result {
        Err(reason) => Err(reason),
        Ok(payload) => Ok(member_of(payload, token_id)),
    }
}

/// The response to a balance query for `token_id`.
pub open spec fn balance_response(token_id: Seq<char>, call_result: Result<Value, PromiseError>)
    -> Result<Seq<char>, ResponseContractViolation> {
    balance_outcome(balance_lookup(token_id, call_result))
}

/// The line logged when the call of `operation` has settled, if any: every
/// failure is logged under the operation's name, and so is the success of a
/// withdrawal or a transfer.
pub open spec fn diagnostic_text(operation: Operation, succeeded: bool) -> Option<Seq<char>> {
    match (operation, succeeded) {
        (Operation::Deposit, false) => Some(
            "There was an error depositing on HOT Omni Contract"@,
        ),
        (Operation::GetOmniBalance, false) => Some(
            "There was an error querying user's balances on HOT Omni Contract"@,
        ),
        (Operation::Withdraw, false) => Some(
            "There was an error withdrawing from HOT Omni Contract"@,
        ),
        (Operation::Transfer, false) => Some(
            "There was an error transferring within HOT Omni Contract"@,
        ),
        (Operation::Withdraw, true) => Some("withdrawing was successful!"@),
        (Operation::Transfer, true) => Some("transferring was successful!"@),
        (Operation::Deposit, true) => None,
        (Operation::GetOmniBalance, true) => None,
    }
}

/// The line to log when the call of `operation` has settled, if any.
pub fn diagnostic(operation: Operation, succeeded: bool) -> (line: Option<&'static str>)
    ensures
        line is Some <==> diagnostic_text(operation, succeeded) is Some,
        line matches Some(text) ==> Some(text@) == diagnostic_text(operation, succeeded),
{
    match operation {
        Operation::Deposit => {
            if succeeded {
                None
            } else {
                Some("There was an error depositing on HOT Omni Contract")
            }
        },
        Operation::GetOmniBalance => {
            if succeeded {
                None
            } else {
                Some("There was an error querying user's balances on HOT Omni Contract")
            }
        },
        Operation::Withdraw => {
            if succeeded {
                Some("withdrawing was successful!")
            } else {
                Some("There was an error withdrawing from HOT Omni Contract")
            }
        },
        Operation::Transfer => {
            if succeeded {
                Some("transferring was successful!")
            } else {
                Some("There was an error transferring within HOT Omni Contract")
            }
        },
    }
}

/// The settled lookup of a balance, by its text.
pub open spec fn settled_text(settled: Result<Option<Option<String>>, PromiseError>) -> Result<
    Option<Option<Seq<char>>>,
    PromiseError,
> {
    match settled {
        Err(reason) => Err(reason),
        Ok(found) => Ok(found_text(found)),
    }
}

/// Turns what a settled balance query holds for the token asked for into
/// the response: the balance as it is held, the empty text for a failed
/// call, and otherwise the violation.
pub fn reconcile_balance(settled: Result<Option<Option<String>>, PromiseError>) -> (response:
    Result<String, ResponseContractViolation>)
    ensures
        match balance_outcome(settled_text(settled)) {
            Ok(text) => response matches Ok(given) && given@ == text,
            Err(violation) => response == Err::<String, ResponseContractViolation>(violation),
        },
        settled matches Ok(Some(Some(balance))) ==> response == Ok::<
            String,
            ResponseContractViolation,
        >(balance),
{
    match settled {
        Err(_) => Ok(String::new()),
        Ok(Some(Some(balance))) => Ok(balance),
        Ok(Some(None)) => Err(ResponseContractViolation::BalanceNotText),
        Ok(None) => Err(ResponseContractViolation::BalanceMissing),
    }
}

impl Contract {
    /// Continuation of a deposit: the credited amount exactly as reported,
    /// or the empty text where the call failed. The state is left as it was.
    pub fn deposit_callback(&mut self, call_result: Result<String, PromiseError>) -> (response:
        String)
        ensures
            response@ == deposit_response(call_result),
            call_result matches Ok(credited) ==> response == credited,
            *final(self) == *old(self),
    {
        match call_result {
            Ok(credited) => credited,
            Err(_) => String::new(),
        }
    }

    /// Continuation of a balance query for `token_id`, where the settled
    /// call answers the question: the balance exactly as reported, or the
    /// empty text where the call failed.
    pub fn get_omni_balance_callback(
        &self,
        token_id: String,
        call_result: Result<Value, PromiseError>,
    ) -> (response: String)
        requires
            balance_response(token_id@, call_result) is Ok,
        ensures
            Ok::<Seq<char>, ResponseContractViolation>(response@) == balance_response(
                token_id@,
                call_result,
            ),
    {
        let settled = match call_result {
            Err(reason) => Err(reason),
            Ok(payload) => Ok(member(&payload, token_id.as_str())),
        };
        reconcile_balance(settled).unwrap()
    }

    /// Continuation of a balance query for `token_id`, for every settled
    /// call: the response where there is one, and the violation where the
    /// call succeeded but its payload holds no text balance for the token.
    pub fn try_get_omni_balance_callback(
        &self,
        token_id: String,
        call_result: Result<Value, PromiseError>,
    ) -> (response: Result<String, ResponseContractViolation>)
        ensures
            match balance_response(token_id@, call_result) {
                Ok(text) => response matches Ok(given) && given@ == text,
                Err(violation) => response == Err::<String, ResponseContractViolation>(violation),
            },
    {
        let violation = match &call_result {
            Err(_) => None,
            Ok(payload) => match member(payload, token_id.as_str()) {
                Some(Some(_)) => None,
                Some(None) => Some(ResponseContractViolation::BalanceNotText),
                None => Some(ResponseContractViolation::BalanceMissing),
            },
        };
        match violation {
            None => Ok(self.get_omni_balance_callback(token_id, call_result)),
            Some(violation) => Err(violation),
        }
    }

    /// Continuation of a withdrawal: whether the call settled without error.
    pub fn withdraw_callback(&self, call_result: Result<(), PromiseError>) -> (done: bool)
        ensures
            done <==> call_result is Ok,
    {
        call_result.is_ok()
    }

    /// Continuation of a transfer: whether the call settled without error.
    pub fn transfer_callback(&self, call_result: Result<(), PromiseError>) -> (done: bool)
        ensures
            done <==> call_result is Ok,
    {
        call_result.is_ok()
    }
}

/// Every failed call is logged, under a line that names its operation: no
/// two operations share the line of their failure.
pub proof fn failures_are_logged_by_operation(a: Operation, b: Operation)
    ensures
        diagnostic_text(a, false) is Some,
        diagnostic_text(a, false) == diagnostic_text(b, false) ==> a == b,
{
    reveal_strlit("There was an error depositing on HOT Omni Contract");
    reveal_strlit("There was an error querying user's balances on HOT Omni Contract");
    reveal_strlit("There was an error withdrawing from HOT Omni Contract");
    reveal_strlit("There was an error transferring within HOT Omni Contract");
    // The four lines differ in length.
    assert("There was an error depositing on HOT Omni Contract"@.len() == 50);
    assert("There was an error querying user's balances on HOT Omni Contract"@.len() == 64);
    assert("There was an error withdrawing from HOT Omni Contract"@.len() == 53);
    assert("There was an error transferring within HOT Omni Contract"@.len() == 56);
}

/// A balance query is answered with a violation exactly where the call
/// succeeded and its payload holds no text balance for the token asked for:
/// nothing at all, or something that is no text. A failed call is answered
/// with the empty text, and an answered one with the balance as the payload
/// holds it.
pub proof fn missing_balance_is_never_a_sentinel(
    token_id: Seq<char>,
    call_result: Result<Value, PromiseError>,
)
    ensures
        call_result is Err ==> balance_response(token_id, call_result) == Ok::<
            Seq<char>,
            ResponseContractViolation,
        >(Seq::empty()),
        call_result matches Ok(payload) ==> balance_response(token_id, call_result) == (
        match member_of(payload, token_id) {
            Some(Some(balance)) => Ok(balance),
            Some(None) => Err(ResponseContractViolation::BalanceNotText),
            None => Err(ResponseContractViolation::BalanceMissing),
        }),
        balance_response(token_id, call_result) is Err ==> call_result is Ok,
{
}

} // verus!
