//! The values pages are rendered with.
//!
//! A [`Context`] maps names to strings, as a template engine reads them. Every
//! page carries the current year and the visitor's API key; a page built
//! without a context of its own also carries the visitor's username.

use vstd::prelude::*;
use chrono::Datelike;
use crate::models::{User, UserView};

verus! {

/// The value of `key` among `entries`: the last entry for it wins.
pub open spec fn lookup(entries: Seq<(String, String)>, key: Seq<char>) -> Option<Seq<char>>
    decreases entries.len(),
{
    if entries.len() == 0 {
        None
    } else if entries.last().0@ == key {
        Some(entries.last().1@)
    } else {
        lookup(entries.drop_last(), key)
    }
}

/// The map that `entries` describe.
pub open spec fn map_of(entries: Seq<(String, String)>) -> Map<Seq<char>, Seq<char>> {
    Map::new(|k: Seq<char>| lookup(entries, k) is Some, |k: Seq<char>| lookup(entries, k)->0)
}

/// Names mapped to strings.
pub struct Context {
    entries: Vec<(String, String)>,
}

impl View for Context {
    type V = Map<Seq<char>, Seq<char>>;

    closed spec fn view(&self) -> Map<Seq<char>, Seq<char>> {
        map_of(self.entries@)
    }
}

impl Context {
    /// An empty context.
    pub fn new() -> (c: Context)
        ensures
            c@ == Map::<Seq<char>, Seq<char>>::empty(),
    {
        let c = Context { entries: Vec::new() };
        assert(c@ =~= Map::<Seq<char>, Seq<char>>::empty());
        c
    }

    /// Sets `key` to `value`, replacing any value it had.
    pub fn insert(&mut self, key: &str, value: String)
        ensures
            final(self)@ == old(self)@.insert(key@, value@),
    {
        let key = String::from_str(key);
        let ghost entries = self.entries@;
        let mut kept: Vec<(String, String)> = Vec::new();
        let n = self.entries.len();
        let mut i: usize = 0;
        while i < n
            invariant
                entries == self.entries@,
                n == entries.len(),
                0 <= i <= n,
                lookup(kept@, key@) is None,
                forall|k: Seq<char>|
                    k != key@ ==> #[trigger] lookup(kept@, k) == lookup(entries.take(i as int), k),
            decreases n - i,
        {
            let ghost before = kept@;
            let ghost prefix1 = entries.take(i + 1);
            proof {
                assert(prefix1.drop_last() =~= entries.take(i as int));
                assert(prefix1.last() == entries[i as int]);
            }
            let pushed = !(self.entries[i].0 == key);
            if pushed {
                let entry = (self.entries[i].0.clone(), self.entries[i].1.clone());
                kept.push(entry);
                proof {
                    assert(kept@.drop_last() =~= before);
                }
            }
            proof {
                assert forall|k: Seq<char>| k != key@ implies #[trigger] lookup(kept@, k) == lookup(
                    prefix1,
                    k,
                ) by {
                    assert(lookup(before, k) == lookup(entries.take(i as int), k));
                    if pushed {
                        assert(kept@.last().0@ == entries[i as int].0@);
                        assert(kept@.last().1@ == entries[i as int].1@);
                    } else {
                        assert(kept@ == before);
                        assert(entries[i as int].0@ == key@);
                    }
                }
            }
            i = i + 1;
        }
        proof {
            assert(entries.take(n as int) =~= entries);
        }
        let ghost before = kept@;
        kept.push((key, value));
        proof {
            assert(kept@.drop_last() =~= before);
            assert forall|k: Seq<char>| #[trigger] lookup(kept@, k) == (if k == key@ {
                Some(value@)
            } else {
                lookup(entries, k)
            }) by {
                assert(kept@.last().0@ == key@);
                if k != key@ {
                    assert(lookup(kept@, k) == lookup(before, k));
                    assert(lookup(before, k) == lookup(entries.take(n as int), k));
                }
            }
        }
        let ghost old_map = self@;
        self.entries = kept;
        assert(self@ =~= old_map.insert(key@, value@));
    }

    /// The value of `key`, if it has one.
    pub fn get(&self, key: &str) -> (v: Option<String>)
        ensures
            v is Some <==> self@.contains_key(key@),
            v matches Some(s) ==> s@ == self@[key@],
    {
        let wanted = String::from_str(key);
        let mut i: usize = self.entries.len();
        proof {
            assert(self.entries@.take(i as int) =~= self.entries@);
        }
        while i > 0
            invariant
                i <= self.entries@.len(),
                wanted@ == key@,
                lookup(self.entries@, key@) == lookup(self.entries@.take(i as int), key@),
            decreases i,
        {
            proof {
                assert(self.entries@.take(i as int).drop_last() =~= self.entries@.take(i - 1));
                assert(self.entries@.take(i as int).last() == self.entries@[i - 1]);
            }
            if self.entries[i - 1].0 == wanted {
                return Some(self.entries[i - 1].1.clone());
            }
            i = i - 1;
        }
        proof {
            assert(self.entries@.take(0) =~= Seq::<(String, String)>::empty());
        }
        None
    }

    /// The entries as (name, value) pairs; a later pair for a name overrides an earlier one.
    pub fn into_entries(self) -> (entries: Vec<(String, String)>)
        ensures
            map_of(entries@) == self@,
    {
        self.entries
    }
}

/// The decimal digit `d`.
pub open spec fn digit_char(d: nat) -> char {
    seq!['0', '1', '2', '3', '4', '5', '6', '7', '8', '9'][d as int]
}

/// The decimal numeral of `n`, without leading zeros.
pub open spec fn nat_decimal(n: nat) -> Seq<char>
    decreases n,
{
    if n < 10 {
        seq![digit_char(n)]
    } else {
        nat_decimal(n / 10) + seq![digit_char(n % 10)]
    }
}

/// The decimal numeral of `n`, with a leading `-` when negative.
pub open spec fn int_decimal(n: int) -> Seq<char> {
    if n < 0 {
        seq!['-'] + nat_decimal((-n) as nat)
    } else {
        nat_decimal(n as nat)
    }
}

/// The one-character string of decimal digit `d`.
fn digit_str(d: u64) -> (s: &'static str)
    requires
        d < 10,
    ensures
        s@ == seq![digit_char(d as nat)],
{
    proof {
        reveal_strlit("0");
        reveal_strlit("1");
        reveal_strlit("2");
        reveal_strlit("3");
        reveal_strlit("4");
        reveal_strlit("5");
        reveal_strlit("6");
        reveal_strlit("7");
        reveal_strlit("8");
        reveal_strlit("9");
    }
    if d == 0 {
        "0"
    } else if d == 1 {
        "1"
    } else if d == 2 {
        "2"
    } else if d == 3 {
        "3"
    } else if d == 4 {
        "4"
    } else if d == 5 {
        "5"
    } else if d == 6 {
        "6"
    } else if d == 7 {
        "7"
    } else if d == 8 {
        "8"
    } else {
        "9"
    }
}

/// Appends the decimal numeral of `n`.
fn append_decimal(out: &mut String, n: u64)
    ensures
        final(out)@ == old(out)@ + nat_decimal(n as nat),
    decreases n,
{
    if n >= 10 {
        append_decimal(out, n / 10);
    }
    out.append(digit_str(n % 10));
    proof {
        assert(old(out)@ + nat_decimal(n as nat) =~= if n >= 10 {
            old(out)@ + nat_decimal((n / 10) as nat) + seq![digit_char((n % 10) as nat)]
        } else {
            old(out)@ + seq![digit_char((n % 10) as nat)]
        });
    }
}

/// The decimal numeral of `n`, as `to_string` writes it.
pub fn i32_to_decimal(n: i32) -> (s: String)
    ensures
        s@ == int_decimal(n as int),
{
    let mut s = String::new();
    if n < 0 {
        proof {
            reveal_strlit("-");
        }
        s.append("-");
        let magnitude: u64 = (0i64 - (n as i64)) as u64;
        append_decimal(&mut s, magnitude);
    } else {
        append_decimal(&mut s, n as u64);
    }
    s
}

/// The current year from chrono's `Utc::now()`, read with `Datelike::year`.
/// Trusted; nothing is stated of it, as it depends on the clock.
#[verifier::external_body]
fn current_year() -> i32 {
    chrono::Utc::now().year()
}

/// The name, or the empty string when there is no visitor.
pub open spec fn username_or_empty(user: Option<UserView>) -> Seq<char> {
    match user {
        Some(u) => u.username,
        None => Seq::empty(),
    }
}

/// The API key, or the empty string when there is no visitor.
pub open spec fn apikey_or_empty(user: Option<UserView>) -> Seq<char> {
    match user {
        Some(u) => u.apikey,
        None => Seq::empty(),
    }
}

/// The value of an optional user.
pub open spec fn opt_user(user: Option<User>) -> Option<UserView> {
    match user {
        Some(u) => Some(u@),
        None => None,
    }
}

/// The context of a page in `year` for `user`: without a context of its own,
/// the year, username and API key; with one, that context with the year and
/// API key set (its username, if any, is left as it was).
pub open spec fn page_context(
    year: Seq<char>,
    user: Option<UserView>,
    own: Option<Map<Seq<char>, Seq<char>>>,
) -> Map<Seq<char>, Seq<char>> {
    match own {
        None => Map::<Seq<char>, Seq<char>>::empty().insert("year"@, year).insert(
            "username"@,
            username_or_empty(user),
        ).insert("apikey"@, apikey_or_empty(user)),
        Some(ctx) => ctx.insert("year"@, year).insert("apikey"@, apikey_or_empty(user)),
    }
}

/// Every page shows the year under `year` and the visitor's API key (empty
/// for no visitor) under `apikey`. A page with no context of its own shows
/// exactly these and the visitor's username (empty for no visitor) under
/// `username`; a page with its own context keeps every other entry of it
/// unchanged and adds nothing else.
pub proof fn lemma_page_shows_year_and_visitor(
    year: Seq<char>,
    user: Option<UserView>,
    own: Map<Seq<char>, Seq<char>>,
    k: Seq<char>,
)
    ensures
        ({
            let key = match user {
                Some(u) => u.apikey,
                None => Seq::<char>::empty(),
            };
            let name = match user {
                Some(u) => u.username,
                None => Seq::<char>::empty(),
            };
            let bare = page_context(year, user, None);
            let with = page_context(year, user, Some(own));
            &&& bare.dom() == set!["year"@, "username"@, "apikey"@]
            &&& bare["year"@] == year && bare["username"@] == name && bare["apikey"@] == key
            &&& with.contains_key("year"@) && with["year"@] == year
            &&& with.contains_key("apikey"@) && with["apikey"@] == key
            &&& (k != "year"@ && k != "apikey"@) ==> (with.contains_key(k) == own.contains_key(k)
                && (own.contains_key(k) ==> with[k] == own[k]))
        }),
{
    reveal_strlit("year");
    reveal_strlit("username");
    reveal_strlit("apikey");
    assert("year"@.len() == 4);
    assert("username"@.len() == 8);
    assert("apikey"@.len() == 6);
    assert("year"@ != "username"@);
    assert("year"@ != "apikey"@);
    assert("username"@ != "apikey"@);
    assert(page_context(year, user, None).dom() =~= set!["year"@, "username"@, "apikey"@]);
}

/// The number a string of decimal digits denotes.
pub open spec fn decimal_value(s: Seq<char>) -> int
    decreases s.len(),
{
    if s.len() == 0 {
        0
    } else {
        10 * decimal_value(s.drop_last()) + (s.last() as int - '0' as int)
    }
}

/// Each decimal digit character denotes its digit.
proof fn lemma_digit_char_value(d: nat)
    requires
        d < 10,
    ensures
        '0' <= digit_char(d) <= '9',
        digit_char(d) as int - '0' as int == d,
{
    if d == 0 {
        assert(digit_char(d) == '0');
    } else if d == 1 {
        assert(digit_char(d) == '1');
    } else if d == 2 {
        assert(digit_char(d) == '2');
    } else if d == 3 {
        assert(digit_char(d) == '3');
    } else if d == 4 {
        assert(digit_char(d) == '4');
    } else if d == 5 {
        assert(digit_char(d) == '5');
    } else if d == 6 {
        assert(digit_char(d) == '6');
    } else if d == 7 {
        assert(digit_char(d) == '7');
    } else if d == 8 {
        assert(digit_char(d) == '8');
    } else {
        assert(digit_char(d) == '9');
    }
}

/// The numeral of `n` is made of decimal digits only, starts with a zero only
/// when it is `0`, and denotes `n`.
pub proof fn lemma_decimal_denotes(n: nat)
    ensures
        nat_decimal(n).len() >= 1,
        forall|i: int| 0 <= i < nat_decimal(n).len() ==> '0' <= #[trigger] nat_decimal(n)[i] <= '9',
        nat_decimal(n)[0] == '0' ==> n == 0,
        decimal_value(nat_decimal(n)) == n,
    decreases n,
{
    lemma_digit_char_value(n % 10);
    if n < 10 {
        let s = nat_decimal(n);
        assert(s.drop_last() =~= Seq::<char>::empty());
        assert(decimal_value(s.drop_last()) == 0);
        assert(s.last() == digit_char(n));
        assert(n % 10 == n);
    } else {
        lemma_decimal_denotes(n / 10);
        let s = nat_decimal(n);
        assert(s.drop_last() =~= nat_decimal(n / 10));
        assert forall|i: int| 0 <= i < s.len() implies '0' <= #[trigger] s[i] <= '9' by {
            if i < s.len() - 1 {
                assert(s[i] == nat_decimal(n / 10)[i]);
            }
        }
        assert(s[0] == nat_decimal(n / 10)[0]);
        assert(s.last() == digit_char(n % 10));
        assert(decimal_value(s) == 10 * decimal_value(s.drop_last()) + (s.last() as int - '0' as int));
    }
}

/// The numeral of a negative number is a minus sign followed by the numeral
/// of its magnitude; that of any other number is its plain numeral.
pub proof fn lemma_signed_decimal(n: int)
    ensures
        n < 0 ==> int_decimal(n)[0] == '-' && int_decimal(n).drop_first() == nat_decimal((-n) as nat),
        n >= 0 ==> int_decimal(n) == nat_decimal(n as nat),
{
    if n < 0 {
        assert(int_decimal(n).drop_first() =~= nat_decimal((-n) as nat));
    }
}

/// The value of an optional context.
pub open spec fn opt_context(c: Option<Context>) -> Option<Map<Seq<char>, Seq<char>>> {
    match c {
        Some(c) => Some(c@),
        None => None,
    }
}

/// The context of a page rendered in `year`.
pub fn context_for_year(year: i32, user: &Option<User>, context: Option<Context>) -> (c: Context)
    ensures
        c@ == page_context(int_decimal(year as int), opt_user(*user), opt_context(context)),
{
    let year = i32_to_decimal(year);
    let username = match user {
        Some(u) => u.username.clone(),
        None => String::new(),
    };
    let apikey = match user {
        Some(u) => u.apikey.clone(),
        None => String::new(),
    };
    match context {
        None => {
            let mut ctx = Context::new();
            ctx.insert("year", year);
            ctx.insert("username", username);
            ctx.insert("apikey", apikey);
            ctx
        },
        Some(ctx) => {
            let mut ctx = ctx;
            ctx.insert("year", year);
            ctx.insert("apikey", apikey);
            ctx
        },
    }
}

/// The context of a page rendered now.
pub fn build_template(user: &Option<User>, context: Option<Context>) -> (c: Context)
    ensures
        exists|year: i32|
            c@ == page_context(int_decimal(year as int), opt_user(*user), opt_context(context)),
{
    let year = current_year();
    context_for_year(year, user, context)
}

} // verus!
