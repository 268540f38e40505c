//! Labels of the score displays, and the high-score history they show.

use vstd::prelude::*;
use crate::consts::HISTORY_LEN;

verus! {

/// The character of a decimal digit.
pub open spec fn digit_char(d: nat) -> char {
    if d == 0 {
        '0'
    } else if d == 1 {
        '1'
    } else if d == 2 {
        '2'
    } else if d == 3 {
        '3'
    } else if d == 4 {
        '4'
    } else if d == 5 {
        '5'
    } else if d == 6 {
        '6'
    } else if d == 7 {
        '7'
    } else if d == 8 {
        '8'
    } else {
        '9'
    }
}

/// The decimal digits of a number, most significant first, without leading zeros.
pub open spec fn decimal(n: nat) -> Seq<char>
    decreases n,
{
    if n < 10 {
        seq![digit_char(n)]
    } else {
        decimal(n / 10).push(digit_char(n % 10))
    }
}

fn digit_str(d: u64) -> (s: &'static str)
    requires
        d < 10,
    ensures
        s@ == seq![digit_char(d as nat)],
{
    proof {
        reveal_strlit("0");
        reveal_strlit("1");
        reveal_strlit("2");
        reveal_strlit("3");
        reveal_strlit("4");
        reveal_strlit("5");
        reveal_strlit("6");
        reveal_strlit("7");
        reveal_strlit("8");
        reveal_strlit("9");
    }
    let s = if d == 0 {
        "0"
    } else if d == 1 {
        "1"
    } else if d == 2 {
        "2"
    } else if d == 3 {
        "3"
    } else if d == 4 {
        "4"
    } else if d == 5 {
        "5"
    } else if d == 6 {
        "6"
    } else if d == 7 {
        "7"
    } else if d == 8 {
        "8"
    } else {
        "9"
    };
    s
}

/// Appends the decimal digits of `n` to `out`.
pub fn push_decimal(out: &mut String, n: u64)
    ensures
        final(out)@ == old(out)@ + decimal(n as nat),
    decreases n,
{
    if n >= 10 {
        push_decimal(out, n / 10);
    }
    out.append(digit_str(n % 10));
}

/// Label of the score of the current life.
pub open spec fn current_score_text(num: u32) -> Seq<char> {
    "当前歼灭敌机数: "@ + decimal(num as nat)
}

/// Label of the score of the whole game.
pub open spec fn total_score_text(num: u32) -> Seq<char> {
    "总共歼灭敌机数: "@ + decimal(num as nat)
}

/// Label of the lives that remain.
pub open spec fn lives_text(num: u32) -> Seq<char> {
    "你还有 "@ + decimal(num as nat) + " 条命！"@
}

/// Renders the label of the score of the current life.
pub fn get_current_score_text(num: u32) -> (text: String)
    ensures
        text@ == current_score_text(num),
{
    let mut text = String::from_str("当前歼灭敌机数: ");
    push_decimal(&mut text, num as u64);
    text
}

/// Renders the label of the score of the whole game.
pub fn get_total_score_text(num: u32) -> (text: String)
    ensures
        text@ == total_score_text(num),
{
    let mut text = String::from_str("总共歼灭敌机数: ");
    push_decimal(&mut text, num as u64);
    text
}

/// Renders the label of the lives that remain.
pub fn get_lives_text(num: u32) -> (text: String)
    ensures
        text@ == lives_text(num),
{
    let mut text = String::from_str("你还有 ");
    push_decimal(&mut text, num as u64);
    text.append(" 条命！");
    text
}

/// Whether a sequence of scores runs from the highest to the lowest.
pub open spec fn sorted_desc(s: Seq<u32>) -> bool {
    forall|i: int, j: int| 0 <= i <= j < s.len() ==> s[i] >= s[j]
}

/// Index of the first entry below `num`; the length where there is none.
/// Entries equal to `num` stay in front of it.
pub open spec fn slot(s: Seq<u32>, num: u32) -> int
    decreases s.len(),
{
    if s.len() == 0 {
        0
    } else if s[0] < num {
        0
    } else {
        1 + slot(s.drop_first(), num)
    }
}

/// The history after `num` was offered: where `num` exceeds the last entry it
/// takes the place of the first entry below it, the entries from there on move
/// down by one and the last one falls off; else nothing changes.
pub open spec fn inserted(s: Seq<u32>, num: u32) -> Seq<u32> {
    if s.len() > 0 && num > s.last() {
        let p = slot(s, num);
        s.take(p).push(num) + s.subrange(p, s.len() - 1)
    } else {
        s
    }
}

/// What `slot` finds: all entries before it are at least `num`, and the entry
/// at it, if there is one, is below `num`.
pub proof fn slot_is_first_below(s: Seq<u32>, num: u32)
    ensures
        0 <= slot(s, num) <= s.len(),
        forall|i: int| 0 <= i < slot(s, num) ==> s[i] >= num,
        slot(s, num) < s.len() ==> s[slot(s, num)] < num,
    decreases s.len(),
{
    if s.len() > 0 && s[0] >= num {
        let t = s.drop_first();
        slot_is_first_below(t, num);
        assert forall|i: int| 0 <= i < slot(s, num) implies s[i] >= num by {
            if i > 0 {
                assert(s[i] == t[i - 1]);
            }
        }
    }
}

/// An index with the two properties of a slot is the slot.
pub proof fn slot_is_unique(s: Seq<u32>, num: u32, p: int)
    requires
        0 <= p <= s.len(),
        forall|i: int| 0 <= i < p ==> s[i] >= num,
        p < s.len() ==> s[p] < num,
    ensures
        slot(s, num) == p,
{
    slot_is_first_below(s, num);
}

/// Offering a score keeps the number of entries.
pub proof fn inserted_keeps_length(s: Seq<u32>, num: u32)
    ensures
        inserted(s, num).len() == s.len(),
{
    slot_is_first_below(s, num);
}

/// A history that runs from the highest to the lowest score still does after
/// a score was offered.
pub proof fn inserted_keeps_order(s: Seq<u32>, num: u32)
    requires
        sorted_desc(s),
    ensures
        sorted_desc(inserted(s, num)),
{
    slot_is_first_below(s, num);
}

/// In a history that runs from the highest to the lowest score, the scores kept
/// after an offer are the highest of the old entries and the new score: the one
/// left out is no higher than any that is kept.
pub proof fn inserted_keeps_the_highest(s: Seq<u32>, num: u32)
    requires
        sorted_desc(s),
        s.len() > 0,
    ensures
        num > s.last() ==> inserted(s, num).to_multiset().insert(s.last())
            =~= s.to_multiset().insert(num),
        num <= s.last() ==> inserted(s, num) == s,
        forall|i: int| 0 <= i < s.len() ==> #[trigger] inserted(s, num)[i] >= s.last(),
{
    slot_is_first_below(s, num);
    inserted_keeps_length(s, num);
    if num > s.last() {
        let p = slot(s, num);
        let n = s.len() as int;
        let head = s.take(p);
        let tail = s.subrange(p, n - 1);
        vstd::seq_lib::lemma_multiset_commutative(head.push(num), tail);
        vstd::seq_lib::lemma_multiset_commutative(head, tail);
        assert(head + tail =~= s.drop_last());
        assert(s =~= s.drop_last().push(s.last()));
        vstd::seq::Seq::to_multiset_ensures(head);
        vstd::seq::Seq::to_multiset_ensures(s.drop_last());
        assert(s.drop_last().push(s.last()).to_multiset() =~= s.drop_last().to_multiset().insert(
            s.last(),
        ));
    }
}

/// The highest scores of the games played so far, highest first.
#[derive(Clone, Copy, Debug)]
pub struct History(pub [u32; HISTORY_LEN]);

impl View for History {
    type V = Seq<u32>;

    open spec fn view(&self) -> Seq<u32> {
        self.0@
    }
}

impl History {
    /// A history of zeros.
    pub fn new() -> (h: History)
        ensures
            h@ == seq![0u32, 0u32, 0u32, 0u32],
            sorted_desc(h@),
    {
        let h = History([0, 0, 0, 0]);
        h
    }

    /// The entry of rank `i`, counted from zero.
    pub fn get(&self, i: usize) -> (score: u32)
        requires
            i < HISTORY_LEN,
        ensures
            score == self@[i as int],
    {
        self.0[i]
    }

    /// The entries, highest rank first.
    pub fn entries(&self) -> (v: Vec<u32>)
        ensures
            v@ == self@,
    {
        let mut v: Vec<u32> = Vec::new();
        let mut i: usize = 0;
        while i < HISTORY_LEN
            invariant
                i <= HISTORY_LEN,
                v@ == self@.take(i as int),
            decreases HISTORY_LEN - i,
        {
            v.push(self.0[i]);
            i += 1;
        }
        v
    }

    /// Offers a score to the history; see [`inserted`].
    pub fn record(&mut self, num: u32)
        ensures
            final(self)@ == inserted(old(self)@, num),
            sorted_desc(old(self)@) ==> sorted_desc(final(self)@),
    {
        let last: usize = HISTORY_LEN - 1;
        proof {
            slot_is_first_below(self@, num);
            if sorted_desc(self@) {
                inserted_keeps_order(self@, num);
            }
        }
        if num > self.0[last] {
            let mut idx: usize = 0;
            while self.0[idx] >= num
                invariant
                    idx < HISTORY_LEN,
                    self@ == old(self)@,
                    num > self@[HISTORY_LEN - 1],
                    forall|i: int| 0 <= i < idx ==> self@[i] >= num,
                decreases HISTORY_LEN - idx,
            {
                idx += 1;
            }
            proof {
                slot_is_unique(self@, num, idx as int);
            }
            let mut k: usize = last;
            while k > idx
                invariant
                    idx <= k < HISTORY_LEN,
                    self@.len() == HISTORY_LEN,
                    forall|i: int| 0 <= i <= k ==> self@[i] == old(self)@[i],
                    forall|i: int| k < i < HISTORY_LEN ==> self@[i] == old(self)@[i - 1],
                decreases k,
            {
                self.0[k] = self.0[k - 1];
                k -= 1;
            }
            self.0[idx] = num;
        }
    }

    /// Renders the history block; see [`history_text`].
    pub fn render(&self) -> (text: String)
        ensures
            text@ == history_text(self@),
    {
        let mut text = String::from_str("历史最高记录");
        let mut i: usize = 0;
        while i < HISTORY_LEN
            invariant
                i <= HISTORY_LEN,
                self@.len() == HISTORY_LEN,
                text@ == "历史最高记录"@ + history_lines(self@, i as int),
            decreases HISTORY_LEN - i,
        {
            text.append("\n#");
            push_decimal(&mut text, (i + 1) as u64);
            text.append(": ");
            push_decimal(&mut text, self.0[i] as u64);
            i += 1;
        }
        text
    }
}

impl Default for History {
    /// A history of zeros.
    fn default() -> (h: History)
        ensures
            h@ == seq![0u32, 0u32, 0u32, 0u32],
    {
        History::new()
    }
}

/// One line of the history block: a line break, `#`, the rank counted from
/// one, a colon and the score.
pub open spec fn history_line(rank: int, score: u32) -> Seq<char> {
    "\n#"@ + decimal(rank as nat) + ": "@ + decimal(score as nat)
}

/// The lines of the first `k` entries.
pub open spec fn history_lines(s: Seq<u32>, k: int) -> Seq<char>
    decreases k,
{
    if k <= 0 || k > s.len() {
        Seq::<char>::empty()
    } else {
        history_lines(s, k - 1) + history_line(k, s[k - 1])
    }
}

/// The history block: a title, then one line for each entry.
pub open spec fn history_text(s: Seq<u32>) -> Seq<char> {
    "历史最高记录"@ + history_lines(s, s.len() as int)
}

/// Offers `num` to the history and renders the block that results.
pub fn get_history_text(history: &mut History, num: u32) -> (text: String)
    ensures
        final(history)@ == inserted(old(history)@, num),
        text@ == history_text(final(history)@),
{
    history.record(num);
    history.render()
}

} // verus!
