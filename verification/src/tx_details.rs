use vstd::prelude::*;

verus! {

/// One receipt-level outcome of a state-changing call.
#[derive(Debug)]
pub struct OutcomeDetails {
    pub gas_burnt: u64,
    pub logs: Vec<String>,
}

/// The outcome of a state-changing call: overall success, the log lines,
/// the returned value rendered as JSON text, and the per-receipt outcomes.
#[derive(Debug)]
pub struct CallDetails {
    pub success: bool,
    pub logs: Vec<String>,
    pub value: String,
    pub outcomes: Vec<OutcomeDetails>,
}

/// The outcome of a read-only view: the returned value rendered as JSON
/// text, and the log lines.
#[derive(Debug)]
pub struct ViewDetails {
    pub value: String,
    pub logs: Vec<String>,
}

/// A snapshot of an account taken by an inspection step.
#[derive(Debug)]
pub struct AccountDetails {
    pub balance: u128,
}

/// One normalized step outcome. Each accessor is only available on the
/// variants that carry the datum; asking the wrong variant is ruled out.
#[derive(Debug)]
pub enum TxDetails {
    Call(CallDetails),
    View(ViewDetails),
    ViewAccount(AccountDetails),
}

impl TxDetails {
    /// The inspected account's balance; only an inspection outcome has one.
    pub fn balance(&self) -> (r: u128)
        requires
            self is ViewAccount,
        ensures
            r == self->ViewAccount_0.balance,
    {
        match self {
            TxDetails::ViewAccount(details) => details.balance,
            _ => unreached(),
        }
    }

    /// The returned value as JSON text; an inspection outcome has none.
    pub fn json(&self) -> (r: &String)
        requires
            !(self is ViewAccount),
        ensures
            self is Call ==> r@ == self->Call_0.value@,
            self is View ==> r@ == self->View_0.value@,
    {
        match self {
            TxDetails::Call(details) => &details.value,
            TxDetails::View(details) => &details.value,
            _ => unreached(),
        }
    }

    /// The log lines of a state-changing call.
    pub fn logs(&self) -> (r: &Vec<String>)
        requires
            self is Call,
        ensures
            r@ == self->Call_0.logs@,
    {
        match self {
            TxDetails::Call(details) => &details.logs,
            _ => unreached(),
        }
    }

    /// The first receipt outcome of a state-changing call.
    pub fn outcome(&self) -> (r: &OutcomeDetails)
        requires
            self is Call,
            self->Call_0.outcomes@.len() > 0,
        ensures
            *r == self->Call_0.outcomes@[0],
    {
        match self {
            TxDetails::Call(details) => &details.outcomes[0],
            _ => unreached(),
        }
    }

    /// All receipt outcomes of a state-changing call.
    pub fn outcomes(&self) -> (r: &Vec<OutcomeDetails>)
        requires
            self is Call,
        ensures
            r@ == self->Call_0.outcomes@,
    {
        match self {
            TxDetails::Call(details) => &details.outcomes,
            _ => unreached(),
        }
    }

    /// Whether a state-changing call succeeded.
    pub fn is_success(&self) -> (r: bool)
        requires
            self is Call,
        ensures
            r == self->Call_0.success,
    {
        match self {
            TxDetails::Call(details) => details.success,
            _ => unreached(),
        }
    }
}

} // verus!
