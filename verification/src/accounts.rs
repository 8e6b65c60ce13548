//! The accounts of an open vault, as the window shows them and as their
//! counters are spent.

use crate::text::{decimal, decimal_text, same_text};
use vstd::prelude::*;
use vstd::string::*;

verus! {

/// One enrolled account. `secret` is what only code generation reads: the seed
/// and the parameters of the algorithm.
#[derive(Clone)]
pub struct Account<S> {
    pub id: String,
    pub issuer: String,
    pub label: String,
    /// Seconds for which a time-based code is valid.
    pub period: u64,
    /// Whether codes follow a counter in place of the clock.
    pub counter_based: bool,
    pub counter: u64,
    pub secret: S,
}

/// The decrypted contents of a vault: its accounts, and what else it holds.
#[derive(Clone)]
pub struct VaultData<S, R> {
    pub accounts: Vec<Account<S>>,
    pub rest: R,
}

/// Mathematical contents of a vault.
pub struct VaultContents<S, R> {
    pub accounts: Seq<Account<S>>,
    pub rest: R,
}

impl<S, R> View for VaultData<S, R> {
    type V = VaultContents<S, R>;

    open spec fn view(&self) -> VaultContents<S, R> {
        VaultContents { accounts: self.accounts@, rest: self.rest }
    }
}

/// Where, from index `from` on, the first account with this id stands.
pub open spec fn position_from<S>(accounts: Seq<Account<S>>, id: Seq<char>, from: int) -> Option<
    int,
>
    decreases accounts.len() - from,
{
    if from < 0 || from >= accounts.len() {
        None
    } else if accounts[from].id@ == id {
        Some(from)
    } else {
        position_from(accounts, id, from + 1)
    }
}

/// Where the first account with this id stands.
pub open spec fn position<S>(accounts: Seq<Account<S>>, id: Seq<char>) -> Option<int> {
    position_from(accounts, id, 0)
}

/// The accounts with the counter of the account at `index` set to `counter`.
pub open spec fn with_counter<S>(accounts: Seq<Account<S>>, index: int, counter: u64) -> Seq<
    Account<S>,
> {
    accounts.update(index, Account { counter, ..accounts[index] })
}

proof fn lemma_position_from<S>(accounts: Seq<Account<S>>, id: Seq<char>, from: int)
    requires
        0 <= from,
    ensures
        match position_from(accounts, id, from) {
            Some(found) => {
                &&& from <= found < accounts.len()
                &&& accounts[found].id@ == id
                &&& forall|i: int| from <= i < found ==> (#[trigger] accounts[i]).id@ != id
            },
            None => forall|i: int|
                from <= i < accounts.len() ==> (#[trigger] accounts[i]).id@ != id,
        },
    decreases accounts.len() - from,
{
    if from < accounts.len() && accounts[from].id@ != id {
        lemma_position_from(accounts, id, from + 1);
    }
}

/// The position of an id is the first index that holds it, and there is none
/// exactly when no account has the id.
pub proof fn law_position_is_the_first_match<S>(accounts: Seq<Account<S>>, id: Seq<char>)
    ensures
        match position(accounts, id) {
            Some(found) => {
                &&& 0 <= found < accounts.len()
                &&& accounts[found].id@ == id
                &&& forall|i: int| 0 <= i < found ==> (#[trigger] accounts[i]).id@ != id
            },
            None => forall|i: int| 0 <= i < accounts.len() ==> (#[trigger] accounts[i]).id@ != id,
        },
{
    lemma_position_from(accounts, id, 0);
}

proof fn lemma_position_ignores_counters<S>(
    accounts: Seq<Account<S>>,
    id: Seq<char>,
    from: int,
    index: int,
    counter: u64,
)
    requires
        0 <= from,
        0 <= index < accounts.len(),
    ensures
        position_from(with_counter(accounts, index, counter), id, from) == position_from(
            accounts,
            id,
            from,
        ),
    decreases accounts.len() - from,
{
    if from < accounts.len() {
        lemma_position_ignores_counters(accounts, id, from + 1, index, counter);
    }
}

/// Moving a counter moves no account.
pub proof fn law_position_ignores_counters<S>(
    accounts: Seq<Account<S>>,
    id: Seq<char>,
    index: int,
    counter: u64,
)
    requires
        0 <= index < accounts.len(),
    ensures
        position(with_counter(accounts, index, counter), id) == position(accounts, id),
{
    lemma_position_ignores_counters(accounts, id, 0, index, counter);
}

/// Putting a counter back undoes having moved it.
pub proof fn law_counter_restored<S>(accounts: Seq<Account<S>>, index: int, counter: u64)
    requires
        0 <= index < accounts.len(),
    ensures
        with_counter(
            with_counter(accounts, index, counter),
            index,
            accounts[index].counter,
        ) == accounts,
{
    assert(with_counter(with_counter(accounts, index, counter), index, accounts[index].counter)
        =~= accounts);
}

impl<S, R> VaultData<S, R> {
    /// Where the first account with this id stands.
    pub fn find(&self, id: &str) -> (found: Option<usize>)
        ensures
            match found {
                Some(index) => position(self@.accounts, id@) == Some(index as int),
                None => position(self@.accounts, id@) is None,
            },
            found matches Some(index) ==> {
                &&& index < self@.accounts.len()
                &&& self@.accounts[index as int].id@ == id@
                &&& forall|i: int| 0 <= i < index ==> (#[trigger] self@.accounts[i]).id@ != id@
            },
            found is None ==> forall|i: int|
                0 <= i < self@.accounts.len() ==> (#[trigger] self@.accounts[i]).id@ != id@,
    {
        let mut i: usize = 0;
        while i < self.accounts.len()
            invariant
                i <= self.accounts.len(),
                position(self@.accounts, id@) == position_from(self@.accounts, id@, i as int),
            decreases self.accounts.len() - i,
        {
            if same_text(self.accounts[i].id.as_str(), id) {
                proof {
                    law_position_is_the_first_match(self@.accounts, id@);
                }
                return Some(i);
            }
            i = i + 1;
        }
        proof {
            law_position_is_the_first_match(self@.accounts, id@);
        }
        None
    }
}

/// Seconds until the code of a window of `period` seconds changes.
pub open spec fn window_left(period: u64, unix: u64) -> int {
    period - unix as int % period as int
}

/// One line of the account list.
#[derive(Clone, Debug, PartialEq, Eq)]
pub struct AccountRow {
    pub id: String,
    pub issuer: String,
    pub label: String,
    pub code: String,
    /// `remaining` as the window's number type takes it.
    pub seconds: i32,
    /// Seconds until the code changes; none for a counter-based account.
    pub remaining: u64,
    /// Seconds in a full window.
    pub period: u64,
    pub counter_based: bool,
    pub counter_label: String,
}

impl AccountRow {
    /// Whether this row shows `account` at second `unix`, with `code` as the
    /// code that was generated, if that worked.
    pub open spec fn shows<S>(self, account: Account<S>, unix: u64, code: Option<String>) -> bool {
        &&& self.id@ == account.id@
        &&& self.issuer@ == account.issuer@
        &&& self.label@ == account.label@
        &&& self.code@ == match code {
            Some(code) => code@,
            None => "------"@,
        }
        &&& self.period == if account.period == 0 {
            1
        } else {
            account.period
        }
        &&& self.remaining == if account.counter_based {
            0
        } else {
            window_left(self.period, unix)
        }
        &&& self.seconds == self.remaining as i32
        &&& self.counter_based == account.counter_based
        &&& self.counter_label@ == "c"@ + decimal_text(account.counter as nat)
    }
}

/// The row of `account` at second `unix`. A code that could not be generated
/// shows as dashes. A counter-based code does not expire, so it has no window
/// to count down.
pub fn account_row<S>(account: &Account<S>, unix: u64, code: &Option<String>) -> (row: AccountRow)
    ensures
        row.shows(*account, unix, *code),
        row.id@ == account.id@,
        row.issuer@ == account.issuer@,
        row.label@ == account.label@,
        code matches Some(text) ==> row.code@ == text@,
        code is None ==> row.code@ == "------"@,
        row.counter_based == account.counter_based,
        row.counter_label@ == "c"@ + decimal_text(account.counter as nat),
        row.period == (if account.period > 0 {
            account.period
        } else {
            1
        }),
        account.counter_based ==> row.remaining == 0,
        !account.counter_based ==> row.remaining == row.period - unix as int % row.period as int,
        row.seconds == row.remaining as i32,
{
    let period: u64 = if account.period == 0 {
        1
    } else {
        account.period
    };
    let remaining: u64 = if account.counter_based {
        0
    } else {
        period - (unix % period)
    };
    let code: String = match code {
        Some(code) => code.clone(),
        None => "------".to_owned(),
    };
    AccountRow {
        id: account.id.clone(),
        issuer: account.issuer.clone(),
        label: account.label.clone(),
        code,
        seconds: #[verifier::truncate]
        (remaining as i32),
        remaining,
        period,
        counter_based: account.counter_based,
        counter_label: "c".to_owned().concat(decimal(account.counter).as_str()),
    }
}

impl<S, R> VaultData<S, R> {
    /// The account list at second `unix`, in the order of the vault. `codes`
    /// holds the code of each account, or nothing where generating it failed.
    pub fn rows(&self, unix: u64, codes: &Vec<Option<String>>) -> (rows: Vec<AccountRow>)
        requires
            codes@.len() == self@.accounts.len(),
        ensures
            rows@.len() == self@.accounts.len(),
            forall|i: int|
                0 <= i < rows@.len() ==> (#[trigger] rows@[i]).shows(
                    self@.accounts[i],
                    unix,
                    codes@[i],
                ),
            forall|i: int|
                0 <= i < rows@.len() ==> {
                    &&& (#[trigger] rows@[i]).id@ == self@.accounts[i].id@
                    &&& codes@[i] matches Some(text) ==> rows@[i].code@ == text@
                    &&& codes@[i] is None ==> rows@[i].code@ == "------"@
                },
    {
        let mut rows: Vec<AccountRow> = Vec::new();
        let mut i: usize = 0;
        while i < self.accounts.len()
            invariant
                i <= self.accounts.len(),
                codes@.len() == self@.accounts.len(),
                rows@.len() == i,
                forall|j: int|
                    0 <= j < i ==> (#[trigger] rows@[j]).shows(self@.accounts[j], unix, codes@[j]),
            decreases self.accounts.len() - i,
        {
            rows.push(account_row(&self.accounts[i], unix, &codes[i]));
            i = i + 1;
        }
        rows
    }
}

/// A time-based window has at least a second left and at most the whole of it,
/// and when what is left has passed, the next window begins.
pub proof fn law_window_ends_when_the_countdown_does(period: u64, unix: u64)
    requires
        period > 0,
    ensures
        1 <= window_left(period, unix) <= period,
        (unix + window_left(period, unix)) % period as int == 0,
        (unix + window_left(period, unix)) / period as int == unix as int / period as int + 1,
{
    vstd::arithmetic::div_mod::lemma_fundamental_div_mod(unix as int, period as int);
    let quotient = unix as int / period as int;
    let end = unix + window_left(period, unix);
    assert(end == period * (quotient + 1)) by (nonlinear_arith)
        requires
            unix as int == period * quotient + unix as int % period as int,
            end == unix + (period - unix as int % period as int),
    ;
    vstd::arithmetic::div_mod::lemma_fundamental_div_mod_converse(
        end,
        period as int,
        quotient + 1,
        0,
    );
}

/// A row shows the code that was generated, for a time-based and a counter-based
/// account alike, and dashes exactly where none was.
pub proof fn law_a_row_shows_the_code_that_was_generated<S>(
    row: AccountRow,
    account: Account<S>,
    unix: u64,
    code: Option<String>,
)
    requires
        row.shows(account, unix, code),
    ensures
        code matches Some(text) ==> row.code@ == text@,
        code is None ==> row.code@ == "------"@,
{
}

/// A row names its account: id, issuer, label and counter are the account's own,
/// the counter in decimal.
pub proof fn law_a_row_names_its_account<S>(
    row: AccountRow,
    account: Account<S>,
    unix: u64,
    code: Option<String>,
)
    requires
        row.shows(account, unix, code),
    ensures
        row.id@ == account.id@,
        row.issuer@ == account.issuer@,
        row.label@ == account.label@,
        row.counter_based == account.counter_based,
        row.counter_label@ == "c"@ + decimal_text(account.counter as nat),
{
}

/// A row counts down to the second in which the code changes: for a time-based
/// account at least one second and at most a window is left, the next window begins
/// once it has passed, and a window without a length counts as one second. A
/// counter-based code has nothing left to count down.
pub proof fn law_a_row_counts_down_its_window<S>(
    row: AccountRow,
    account: Account<S>,
    unix: u64,
    code: Option<String>,
)
    requires
        row.shows(account, unix, code),
    ensures
        account.period > 0 ==> row.period == account.period,
        account.period == 0 ==> row.period == 1,
        account.counter_based ==> row.remaining == 0,
        !account.counter_based ==> {
            &&& 1 <= row.remaining <= row.period
            &&& (unix + row.remaining) % row.period as int == 0
            &&& (unix + row.remaining) / row.period as int == unix as int / row.period as int + 1
        },
        row.seconds == row.remaining as i32,
{
    law_window_ends_when_the_countdown_does(row.period, unix);
}

/// Setting a counter sets that counter, and changes nothing else in any account.
pub proof fn law_only_the_counter_is_set<S>(
    accounts: Seq<Account<S>>,
    index: int,
    counter: u64,
    i: int,
)
    requires
        0 <= index < accounts.len(),
        0 <= i < accounts.len(),
    ensures
        ({
            let after = with_counter(accounts, index, counter);
            &&& after.len() == accounts.len()
            &&& after[i].counter == if i == index {
                counter
            } else {
                accounts[i].counter
            }
            &&& after[i].id == accounts[i].id
            &&& after[i].issuer == accounts[i].issuer
            &&& after[i].label == accounts[i].label
            &&& after[i].period == accounts[i].period
            &&& after[i].counter_based == accounts[i].counter_based
            &&& after[i].secret == accounts[i].secret
        }),
{
}

} // verus!
