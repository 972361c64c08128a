//! The balance answer of the DeepSeek API and the choice of the entry to show.
use vstd::prelude::*;

use crate::text::chars_of;

verus! {

/// Address of the balance query of the DeepSeek API.
pub const BALANCE_URL: &'static str = "https://api.deepseek.com/user/balance";

/// The `Authorization` header value for an API key: `Bearer <key>`.
pub fn authorization_value(api_key: &str) -> (v: String)
    ensures
        v@ == "Bearer "@ + api_key@,
{
    String::from_str("Bearer ").concat(api_key)
}

/// One currency's balance, as the API reports it.
#[derive(Clone, Debug)]
pub struct BalanceInfo {
    pub currency: String,
    pub total_balance: String,
    pub granted_balance: String,
    pub topped_up_balance: String,
}

/// The text fields of a [`BalanceInfo`].
pub struct BalanceInfoView {
    pub currency: Seq<char>,
    pub total_balance: Seq<char>,
    pub granted_balance: Seq<char>,
    pub topped_up_balance: Seq<char>,
}

impl View for BalanceInfo {
    type V = BalanceInfoView;

    open spec fn view(&self) -> BalanceInfoView {
        BalanceInfoView {
            currency: self.currency@,
            total_balance: self.total_balance@,
            granted_balance: self.granted_balance@,
            topped_up_balance: self.topped_up_balance@,
        }
    }
}

/// The answer of `GET /user/balance`.
#[derive(Clone, Debug)]
pub struct BalanceResponse {
    pub is_available: bool,
    pub balance_infos: Vec<BalanceInfo>,
}

/// The currencies of the entries of a balance answer, in order.
pub open spec fn currencies(infos: Seq<BalanceInfo>) -> Seq<Seq<char>> {
    infos.map_values(|b: BalanceInfo| b.currency@)
}

/// Index of the first entry whose currency is `cur`, if any.
pub open spec fn first_with_currency(cs: Seq<Seq<char>>, cur: Seq<char>) -> Option<int>
    decreases cs.len(),
{
    if cs.len() == 0 {
        None
    } else if cs[0] == cur {
        Some(0)
    } else {
        match first_with_currency(cs.drop_first(), cur) {
            Some(k) => Some(k + 1),
            None => None,
        }
    }
}

/// The entry whose balance is shown: the first in CNY, else the first in USD, else
/// the first of all; none when the answer lists no entry.
pub open spec fn preferred_index(cs: Seq<Seq<char>>) -> Option<int> {
    match first_with_currency(cs, "CNY"@) {
        Some(i) => Some(i),
        None => match first_with_currency(cs, "USD"@) {
            Some(i) => Some(i),
            None => if cs.len() > 0 {
                Some(0)
            } else {
                None
            },
        },
    }
}

/// `first_with_currency` finds the least index holding `cur`.
pub proof fn lemma_first_with_currency(cs: Seq<Seq<char>>, cur: Seq<char>)
    ensures
        first_with_currency(cs, cur) matches Some(i) ==> 0 <= i < cs.len() && cs[i] == cur
            && forall|j: int| 0 <= j < i ==> cs[j] != cur,
        first_with_currency(cs, cur) is None ==> forall|j: int| 0 <= j < cs.len() ==> cs[j] != cur,
    decreases cs.len(),
{
    if cs.len() > 0 && cs[0] != cur {
        let t = cs.drop_first();
        lemma_first_with_currency(t, cur);
        assert forall|j: int| 1 <= j < cs.len() implies cs[j] == t[j - 1] by {}
    }
}

proof fn lemma_first_with_currency_is(cs: Seq<Seq<char>>, cur: Seq<char>, i: int)
    requires
        0 <= i < cs.len(),
        cs[i] == cur,
        forall|j: int| 0 <= j < i ==> cs[j] != cur,
    ensures
        first_with_currency(cs, cur) == Some(i),
{
    lemma_first_with_currency(cs, cur);
    match first_with_currency(cs, cur) {
        Some(k) => {
            if k < i {
                assert(cs[k] != cur);
            } else if k > i {
                assert(cs[i] != cur);
            }
        },
        None => {
            assert(cs[i] != cur);
        },
    }
}

/// Why fetching the balance failed.
#[derive(Clone, Debug, PartialEq, Eq)]
pub enum FetchError {
    /// The request failed; holds the transport's message.
    Network(String),
    /// The answer was not the expected JSON; holds the decoder's message.
    Json(String),
    /// The answer listed no balance.
    EmptyBalance,
    /// The chosen balance was not a number.
    BadNumber,
}

/// The message text of a fetch error.
pub open spec fn error_message(e: FetchError) -> Seq<char> {
    match e {
        FetchError::Network(m) => "Network: "@ + m@,
        FetchError::Json(m) => "JSON: "@ + m@,
        FetchError::EmptyBalance => "Empty balance"@,
        FetchError::BadNumber => "Bad number"@,
    }
}

impl FetchError {
    /// The error's message: `"Network: …"`, `"JSON: …"`, `"Empty balance"` or
    /// `"Bad number"`.
    pub fn message(&self) -> (m: String)
        ensures
            m@ == error_message(*self),
    {
        match self {
            FetchError::Network(e) => String::from_str("Network: ").concat(e.as_str()),
            FetchError::Json(e) => String::from_str("JSON: ").concat(e.as_str()),
            FetchError::EmptyBalance => String::from_str("Empty balance"),
            FetchError::BadNumber => String::from_str("Bad number"),
        }
    }
}

/// Whether two texts hold the same characters.
pub fn same_text(a: &str, b: &str) -> (r: bool)
    ensures
        r == (a@ == b@),
{
    let va = chars_of(a);
    let vb = chars_of(b);
    if va.len() != vb.len() {
        return false;
    }
    let mut i: usize = 0;
    while i < va.len()
        invariant
            va@ == a@,
            vb@ == b@,
            va@.len() == vb@.len(),
            i <= va@.len(),
            forall|j: int| 0 <= j < i ==> va@[j] == vb@[j],
        decreases va@.len() - i,
    {
        if va[i] != vb[i] {
            return false;
        }
        i = i + 1;
    }
    proof {
        assert(va@ =~= vb@);
    }
    true
}

/// Index of the first entry in `currency`, if any.
fn find_currency(infos: &Vec<BalanceInfo>, currency: &str) -> (r: Option<usize>)
    ensures
        r matches Some(i) ==> first_with_currency(currencies(infos@), currency@) == Some(i as int),
        r is None ==> first_with_currency(currencies(infos@), currency@) is None,
{
    let ghost cs = currencies(infos@);
    let mut i: usize = 0;
    while i < infos.len()
        invariant
            cs == currencies(infos@),
            cs.len() == infos@.len(),
            i <= infos@.len(),
            forall|j: int| 0 <= j < i ==> cs[j] != currency@,
        decreases infos@.len() - i,
    {
        if same_text(infos[i].currency.as_str(), currency) {
            proof {
                lemma_first_with_currency_is(cs, currency@, i as int);
            }
            return Some(i);
        }
        i = i + 1;
    }
    proof {
        lemma_first_with_currency(cs, currency@);
        if first_with_currency(cs, currency@) is Some {
            let k = first_with_currency(cs, currency@)->0;
            assert(cs[k] == currency@);
        }
    }
    None
}

/// The balance entry to show: the first in CNY, else the first in USD, else the first
/// listed; fails with `EmptyBalance` when the answer lists none.
pub fn choose_balance(resp: &BalanceResponse) -> (r: Result<&BalanceInfo, FetchError>)
    ensures
        r is Err <==> resp.balance_infos@.len() == 0,
        r matches Err(e) ==> e is EmptyBalance,
        r matches Ok(info) ==> preferred_index(currencies(resp.balance_infos@)) matches Some(i)
            && *info == resp.balance_infos@[i],
{
    let infos = &resp.balance_infos;
    proof {
        lemma_first_with_currency(currencies(infos@), "CNY"@);
        lemma_first_with_currency(currencies(infos@), "USD"@);
    }
    match find_currency(infos, "CNY") {
        Some(i) => Ok(&infos[i]),
        None => match find_currency(infos, "USD") {
            Some(i) => Ok(&infos[i]),
            None => if infos.len() == 0 {
                Err(FetchError::EmptyBalance)
            } else {
                Ok(&infos[0])
            },
        },
    }
}

/// The symbol shown before an amount: `$` for USD, `¥` for every other currency.
pub open spec fn currency_symbol(currency: Seq<char>) -> Seq<char> {
    if currency == "USD"@ {
        "$"@
    } else {
        "¥"@
    }
}

/// The symbol shown before an amount in `currency`.
pub fn symbol_for(currency: &str) -> (s: &'static str)
    ensures
        s@ == currency_symbol(currency@),
{
    if same_text(currency, "USD") {
        "$"
    } else {
        "¥"
    }
}

/// The entry shown is in CNY whenever the answer lists a CNY balance, else in USD
/// whenever it lists a USD balance, else the first listed; there is one exactly when
/// the answer is not empty.
pub proof fn law_currency_preference(cs: Seq<Seq<char>>)
    ensures
        (exists|j: int| 0 <= j < cs.len() && cs[j] == "CNY"@) ==> (preferred_index(cs) matches Some(
            i,
        ) && cs[i] == "CNY"@),
        (forall|j: int| 0 <= j < cs.len() ==> cs[j] != "CNY"@) && (exists|j: int|
            0 <= j < cs.len() && cs[j] == "USD"@) ==> (preferred_index(cs) matches Some(i)
            && cs[i] == "USD"@),
        (forall|j: int| 0 <= j < cs.len() ==> cs[j] != "CNY"@ && cs[j] != "USD"@) && cs.len() > 0
            ==> preferred_index(cs) == Some(0int),
        preferred_index(cs) is None <==> cs.len() == 0,
{
    lemma_first_with_currency(cs, "CNY"@);
    lemma_first_with_currency(cs, "USD"@);
}

} // verus!
