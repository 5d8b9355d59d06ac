//! Parts of a bot's configuration.

use crate::text::{
    lemma_text_less_irreflexive, lemma_text_less_total, lemma_text_less_transitive, text_eq,
    text_less, text_lt,
};
use vstd::prelude::*;

verus! {

/// The kinds of bot.
#[derive(Clone, Copy, Debug, PartialEq, Eq, Structural)]
pub enum BotType {
    Passivbot,
}

impl Default for BotType {
    fn default() -> (bot_type: Self)
        ensures
            bot_type == BotType::Passivbot,
    {
        BotType::Passivbot
    }
}

/// The coins that a bot may take long and short positions in.
#[derive(Debug)]
pub struct Coins {
    pub long: Vec<String>,
    pub short: Vec<String>,
}

/// `coin` is one of `list`.
pub open spec fn lists(list: Seq<String>, coin: Seq<char>) -> bool {
    exists|i: int| 0 <= i < list.len() && #[trigger] list[i]@ == coin
}

/// Whether `coin` is one of `list`.
pub fn is_listed(list: &Vec<String>, coin: &str) -> (found: bool)
    ensures
        found == lists(list@, coin@),
{
    let mut i: usize = 0;
    while i < list.len()
        invariant
            i <= list.len(),
            forall|k: int| 0 <= k < i ==> #[trigger] list@[k]@ != coin@,
        decreases list.len() - i,
    {
        if text_eq(list[i].as_str(), coin) {
            return true;
        }
        i += 1;
    }
    false
}

/// Each coin of the list comes before the next in the order of texts, so
/// that none occurs twice.
pub open spec fn ascending(list: Seq<String>) -> bool {
    forall|i: int, j: int|
        0 <= i < j < list.len() ==> text_less(#[trigger] list[i]@, #[trigger] list[j]@)
}

/// An ascending list holds no coin twice.
pub proof fn lemma_ascending_has_no_repeats(list: Seq<String>)
    requires
        ascending(list),
    ensures
        forall|i: int, j: int| 0 <= i < j < list.len() ==> #[trigger] list[i]@ != #[trigger] list[j]@,
{
    assert forall|i: int, j: int| 0 <= i < j < list.len() implies #[trigger] list[i]@
        != #[trigger] list[j]@ by {
        lemma_text_less_irreflexive(list[i]@);
    }
}

/// The tail of an ascending list holds what the list holds, but for its
/// first coin.
proof fn lemma_tail_lists(list: Seq<String>, coin: Seq<char>)
    requires
        ascending(list),
        list.len() > 0,
    ensures
        ascending(list.drop_first()),
        lists(list.drop_first(), coin) <==> (lists(list, coin) && coin != list[0]@),
{
    let tail = list.drop_first();
    assert forall|i: int, j: int| 0 <= i < j < tail.len() implies text_less(
        #[trigger] tail[i]@,
        #[trigger] tail[j]@,
    ) by {
        assert(tail[i] == list[i + 1] && tail[j] == list[j + 1]);
    }
    if lists(tail, coin) {
        let i = choose|i: int| 0 <= i < tail.len() && #[trigger] tail[i]@ == coin;
        assert(list[i + 1]@ == coin);
        assert(text_less(list[0]@, list[i + 1]@));
        lemma_text_less_irreflexive(coin);
    }
    if lists(list, coin) && coin != list[0]@ {
        let i = choose|i: int| 0 <= i < list.len() && #[trigger] list[i]@ == coin;
        assert(tail[i - 1]@ == coin);
    }
}

/// Two ascending lists that hold the same coins are the same list: to be
/// ascending and to hold given coins leaves no choice.
pub proof fn lemma_ascending_is_unique(a: Seq<String>, b: Seq<String>)
    requires
        ascending(a),
        ascending(b),
        forall|coin: Seq<char>| #[trigger] lists(a, coin) <==> lists(b, coin),
    ensures
        a.len() == b.len(),
        forall|i: int| 0 <= i < a.len() ==> #[trigger] a[i]@ == b[i]@,
    decreases a.len(),
{
    if a.len() == 0 {
        if b.len() > 0 {
            assert(lists(b, b[0]@));
            assert(lists(a, b[0]@));
        }
    } else {
        assert(lists(a, a[0]@));
        assert(lists(b, a[0]@));
        let k = choose|k: int| 0 <= k < b.len() && #[trigger] b[k]@ == a[0]@;
        assert(lists(b, b[0]@));
        assert(lists(a, b[0]@));
        let m = choose|m: int| 0 <= m < a.len() && #[trigger] a[m]@ == b[0]@;
        if k > 0 {
            assert(text_less(b[0]@, b[k]@));
            if m == 0 {
                lemma_text_less_irreflexive(a[0]@);
            } else {
                assert(text_less(a[0]@, a[m]@));
                lemma_text_less_total(a[0]@, a[m]@);
            }
        }
        assert(a[0]@ == b[0]@);
        let a1 = a.drop_first();
        let b1 = b.drop_first();
        assert forall|coin: Seq<char>| #[trigger] lists(a1, coin) <==> lists(b1, coin) by {
            lemma_tail_lists(a, coin);
            lemma_tail_lists(b, coin);
        }
        lemma_tail_lists(a, a[0]@);
        lemma_tail_lists(b, b[0]@);
        lemma_ascending_is_unique(a1, b1);
        assert forall|i: int| 0 <= i < a.len() implies #[trigger] a[i]@ == b[i]@ by {
            if i > 0 {
                assert(a1[i - 1] == a[i]);
                assert(b1[i - 1] == b[i]);
            }
        }
    }
}

/// The first `n + 1` of a list hold what the first `n` hold, and the next.
pub proof fn lemma_lists_one_more(list: Seq<String>, n: int, coin: Seq<char>)
    requires
        0 <= n < list.len(),
    ensures
        lists(list.take(n + 1), coin) <==> (lists(list.take(n), coin) || coin == list[n]@),
{
    let short = list.take(n);
    let long = list.take(n + 1);
    if lists(short, coin) {
        let i = choose|i: int| 0 <= i < short.len() && #[trigger] short[i]@ == coin;
        assert(long[i]@ == coin);
    }
    if coin == list[n]@ {
        assert(long[n]@ == coin);
    }
    if lists(long, coin) {
        let i = choose|i: int| 0 <= i < long.len() && #[trigger] long[i]@ == coin;
        if i < n {
            assert(short[i]@ == coin);
        }
    }
}

/// Puts `coin` into an ascending list at its place, unless the list holds
/// it already.
pub fn insert_coin(list: &mut Vec<String>, coin: &str)
    requires
        ascending(old(list)@),
    ensures
        ascending(final(list)@),
        forall|c: Seq<char>|
            #[trigger] lists(final(list)@, c) <==> (lists(old(list)@, c) || c == coin@),
{
    let mut at: usize = 0;
    while at < list.len() && text_lt(list[at].as_str(), coin)
        invariant
            at <= list.len(),
            *list == *old(list),
            forall|k: int| 0 <= k < at ==> text_less(#[trigger] list@[k]@, coin@),
        decreases list.len() - at,
    {
        at += 1;
    }
    let ghost before = list@;
    if at < list.len() && text_eq(list[at].as_str(), coin) {
        assert forall|c: Seq<char>| #[trigger] lists(before, c) <==> (lists(before, c) || c
            == coin@) by {
            if c == coin@ {
                assert(before[at as int]@ == c);
            }
        }
        return ;
    }
    let owned = coin.to_owned();
    list.insert(at, owned);
    proof {
        let after = list@;
        assert(after == before.insert(at as int, owned));
        assert forall|k: int| at <= k < before.len() implies text_less(
            coin@,
            #[trigger] before[k]@,
        ) by {
            lemma_text_less_total(before[at as int]@, coin@);
            if at < k {
                lemma_text_less_transitive(coin@, before[at as int]@, before[k]@);
            }
        }
        assert forall|i: int, j: int| 0 <= i < j < after.len() implies text_less(
            #[trigger] after[i]@,
            #[trigger] after[j]@,
        ) by {
            if j < at {
                assert(after[i] == before[i] && after[j] == before[j]);
            } else if j == at {
                assert(after[i] == before[i]);
            } else if i < at {
                assert(after[i] == before[i] && after[j] == before[j - 1]);
                if j - 1 == i {
                } else {
                    assert(text_less(before[i]@, before[j - 1]@));
                }
            } else if i == at {
                assert(after[j] == before[j - 1]);
            } else {
                assert(after[i] == before[i - 1] && after[j] == before[j - 1]);
            }
        }
        assert forall|c: Seq<char>| #[trigger] lists(after, c) <==> (lists(before, c) || c
            == coin@) by {
            if lists(before, c) {
                let i = choose|i: int| 0 <= i < before.len() && #[trigger] before[i]@ == c;
                if i < at {
                    assert(after[i]@ == c);
                } else {
                    assert(after[i + 1]@ == c);
                }
            }
            if c == coin@ {
                assert(after[at as int]@ == c);
            }
            if lists(after, c) {
                let i = choose|i: int| 0 <= i < after.len() && #[trigger] after[i]@ == c;
                if i < at {
                    assert(before[i]@ == c);
                } else if i > at {
                    assert(before[i - 1]@ == c);
                }
            }
        }
    }
}

/// Puts every coin of `more` into the ascending list `all`.
fn insert_coins(all: &mut Vec<String>, more: &Vec<String>)
    requires
        ascending(old(all)@),
    ensures
        ascending(final(all)@),
        forall|c: Seq<char>|
            #[trigger] lists(final(all)@, c) <==> (lists(old(all)@, c) || lists(more@, c)),
{
    let mut i: usize = 0;
    while i < more.len()
        invariant
            i <= more.len(),
            ascending(all@),
            forall|c: Seq<char>|
                #[trigger] lists(all@, c) <==> (lists(old(all)@, c) || lists(more@.take(i as int), c)),
        decreases more.len() - i,
    {
        let ghost before = all@;
        insert_coin(all, more[i].as_str());
        proof {
            assert forall|c: Seq<char>| #[trigger] lists(all@, c) <==> (lists(old(all)@, c)
                || lists(more@.take(i + 1), c)) by {
                lemma_lists_one_more(more@, i as int, c);
                assert(lists(all@, c) <==> (lists(before, c) || c == more@[i as int]@));
                assert(lists(before, c) <==> (lists(old(all)@, c) || lists(
                    more@.take(i as int),
                    c,
                )));
            }
        }
        i += 1;
    }
    assert(more@.take(more.len() as int) == more@);
}

impl Coins {
    pub fn new(long: Vec<String>, short: Vec<String>) -> (coins: Self)
        ensures
            coins.long == long,
            coins.short == short,
    {
        Self { long, short }
    }

    /// Whether the coin may be traded: it is listed for long or for short.
    pub fn is_approved(&self, coin: &str) -> (approved: bool)
        ensures
            approved == (lists(self.long@, coin@) || lists(self.short@, coin@)),
    {
        is_listed(&self.long, coin) || is_listed(&self.short, coin)
    }

    /// Every coin that is listed for long or for short, each once, in the
    /// order of texts.
    pub fn all_coins(&self) -> (all: Vec<String>)
        ensures
            ascending(all@),
            forall|c: Seq<char>|
                #[trigger] lists(all@, c) <==> (lists(self.long@, c) || lists(self.short@, c)),
    {
        let mut all: Vec<String> = Vec::new();
        assert(forall|c: Seq<char>| !lists(all@, c));
        insert_coins(&mut all, &self.long);
        insert_coins(&mut all, &self.short);
        all
    }

    /// Whether no coin is approved at all.
    pub fn is_empty(&self) -> (empty: bool)
        ensures
            empty == (self.long@.len() == 0 && self.short@.len() == 0),
    {
        self.long.len() == 0 && self.short.len() == 0
    }
}

} // verus!
