use vstd::prelude::*;
use vstd::string::*;
use crate::search::label_views;

verus! {

/// The character of the decimal digit `d`.
pub open spec fn digit_char(d: nat) -> char {
    seq!['0', '1', '2', '3', '4', '5', '6', '7', '8', '9'][(d % 10) as int]
}

/// The decimal digits of `n`, most significant first, without sign or padding.
pub open spec fn decimal(n: nat) -> Seq<char>
    decreases n,
{
    if n < 10 {
        seq![digit_char(n)]
    } else {
        decimal(n / 10).push(digit_char(n % 10))
    }
}

/// The digits of `rev` (least significant first) as text, most significant first.
pub open spec fn digits_text(rev: Seq<u8>) -> Seq<char> {
    Seq::new(rev.len(), |i: int| digit_char(rev[rev.len() - 1 - i] as nat))
}

/// The number that a string of decimal digits reads as, most significant first.
pub open spec fn decimal_value(s: Seq<char>) -> int
    decreases s.len(),
{
    if s.len() == 0 {
        0
    } else {
        decimal_value(s.drop_last()) * 10 + (s.last() as u32 - '0' as u32)
    }
}

proof fn lemma_digit_char(d: nat)
    requires
        d < 10,
    ensures
        digit_char(d) as u32 == '0' as u32 + d,
        '0' <= digit_char(d) <= '9',
        d > 0 ==> digit_char(d) != '0',
{
    let digits = seq!['0', '1', '2', '3', '4', '5', '6', '7', '8', '9'];
    assert(digit_char(d) == digits[d as int]);
    if d == 0 {} else if d == 1 {} else if d == 2 {} else if d == 3 {} else if d == 4 {}
    else if d == 5 {} else if d == 6 {} else if d == 7 {} else if d == 8 {} else {}
}

/// `decimal(n)` is made of the digits `0` to `9`, reads back as `n`, and has no
/// leading zero but for `n == 0` itself.
pub proof fn lemma_decimal_reads_back(n: nat)
    ensures
        decimal(n).len() > 0,
        forall|i: int| 0 <= i < decimal(n).len() ==> '0' <= #[trigger] decimal(n)[i] <= '9',
        decimal_value(decimal(n)) == n,
        n > 0 ==> decimal(n)[0] != '0',
    decreases n,
{
    if n < 10 {
        lemma_digit_char(n);
        assert(decimal(n) == seq![digit_char(n)]);
        assert(decimal(n).drop_last() =~= Seq::<char>::empty());
        assert(decimal_value(decimal(n)) == decimal_value(Seq::<char>::empty()) * 10 + (digit_char(n) as u32 - '0' as u32));
    } else {
        lemma_decimal_reads_back(n / 10);
        let d = (n % 10) as nat;
        lemma_digit_char(d);
        assert(decimal(n) == decimal(n / 10).push(digit_char(d)));
        assert(decimal(n).drop_last() =~= decimal(n / 10));
        assert forall|i: int| 0 <= i < decimal(n).len() implies '0' <= #[trigger] decimal(n)[i] <= '9' by {
            if i < decimal(n / 10).len() {
                assert(decimal(n)[i] == decimal(n / 10)[i]);
            }
        }
        assert(decimal(n)[0] == decimal(n / 10)[0]);
        assert(decimal_value(decimal(n)) == decimal_value(decimal(n / 10)) * 10 + (digit_char(d) as u32 - '0' as u32));
        assert(n == (n / 10) * 10 + d);
    }
}

fn digit_str(d: u8) -> (s: &'static str)
    requires
        d < 10,
    ensures
        s@ == seq![digit_char(d as nat)],
{
    proof {
        reveal_strlit("0");
        reveal_strlit("1");
        reveal_strlit("2");
        reveal_strlit("3");
        reveal_strlit("4");
        reveal_strlit("5");
        reveal_strlit("6");
        reveal_strlit("7");
        reveal_strlit("8");
        reveal_strlit("9");
    }
    let s = match d {
        0 => "0",
        1 => "1",
        2 => "2",
        3 => "3",
        4 => "4",
        5 => "5",
        6 => "6",
        7 => "7",
        8 => "8",
        _ => "9",
    };
    assert(s@ =~= seq![digit_char(d as nat)]);
    s
}

/// `n` written in decimal, as `ToString` writes an unsigned integer.
pub fn decimal_string(n: usize) -> (s: String)
    ensures
        s@ == decimal(n as nat),
{
    let mut m = n;
    let mut rev: Vec<u8> = Vec::new();
    loop
        invariant_except_break
            decimal(n as nat) == decimal(m as nat) + digits_text(rev@),
        invariant
            forall|i: int| 0 <= i < rev@.len() ==> #[trigger] rev@[i] < 10,
        ensures
            decimal(n as nat) == digits_text(rev@),
        decreases m,
    {
        let d = (m % 10) as u8;
        let ghost before = rev@;
        rev.push(d);
        proof {
            assert(digits_text(rev@) =~= seq![digit_char(d as nat)] + digits_text(before));
            assert(digit_char(d as nat) == digit_char((m % 10) as nat));
        }
        if m < 10 {
            assert(decimal(m as nat) =~= seq![digit_char(d as nat)]);
            break;
        }
        proof {
            assert(decimal(m as nat) == decimal((m / 10) as nat).push(digit_char((m % 10) as nat)));
            assert(decimal(m as nat) + digits_text(before) =~= decimal((m / 10) as nat) + digits_text(rev@));
        }
        m = m / 10;
    }
    let mut s = String::new();
    let len = rev.len();
    let mut j: usize = 0;
    while j < len
        invariant
            len == rev@.len(),
            j <= len,
            forall|i: int| 0 <= i < rev@.len() ==> #[trigger] rev@[i] < 10,
            s@ == digits_text(rev@).take(j as int),
        decreases len - j,
    {
        let d = rev[len - 1 - j];
        s.append(digit_str(d));
        j = j + 1;
        assert(s@ =~= digits_text(rev@).take(j as int));
    }
    assert(digits_text(rev@).take(len as int) =~= digits_text(rev@));
    s
}

/// A line of a list popup: its text, and whether it is marked (the device
/// that is playing).
#[derive(Clone, Debug, PartialEq, Eq)]
pub struct ListLine {
    pub text: String,
    pub marked: bool,
}

/// The lines of a list as plain values.
pub open spec fn line_views(lines: Seq<ListLine>) -> Seq<(Seq<char>, bool)> {
    lines.map_values(|l: ListLine| (l.text@, l.marked))
}

/// The texts as unmarked lines.
pub open spec fn unmarked(texts: Seq<Seq<char>>) -> Seq<(Seq<char>, bool)> {
    texts.map_values(|t: Seq<char>| (t, false))
}

/// Copies of `texts` as unmarked lines.
pub fn unmarked_lines(texts: &Vec<String>) -> (lines: Vec<ListLine>)
    ensures
        line_views(lines@) == unmarked(label_views(texts@)),
{
    let mut lines: Vec<ListLine> = Vec::new();
    let mut i: usize = 0;
    while i < texts.len()
        invariant
            i <= texts@.len(),
            lines@.len() == i,
            forall|k: int| 0 <= k < i ==> #[trigger] lines@[k].text@ == texts@[k]@ && !lines@[k].marked,
        decreases texts@.len() - i,
    {
        lines.push(ListLine { text: texts[i].clone(), marked: false });
        i = i + 1;
    }
    assert(line_views(lines@) =~= unmarked(label_views(texts@)));
    lines
}

/// `keys` written one after another, separated by single spaces.
pub open spec fn joined(keys: Seq<Seq<char>>) -> Seq<char>
    decreases keys.len(),
{
    if keys.len() == 0 {
        Seq::<char>::empty()
    } else if keys.len() == 1 {
        keys[0]
    } else {
        joined(keys.drop_last()) + seq![' '] + keys.last()
    }
}

/// The keys separated by single spaces.
pub fn join_keys(keys: &Vec<String>) -> (s: String)
    ensures
        s@ == joined(label_views(keys@)),
{
    let ghost all = label_views(keys@);
    let mut s = String::new();
    let mut i: usize = 0;
    while i < keys.len()
        invariant
            all == label_views(keys@),
            i <= keys@.len(),
            s@ == joined(all.take(i as int)),
        decreases keys@.len() - i,
    {
        proof {
            assert(all.take(i + 1).drop_last() =~= all.take(i as int));
            reveal_strlit(" ");
        }
        if i > 0 {
            s.append(" ");
        }
        s.append(keys[i].as_str());
        i = i + 1;
        proof {
            if i == 1 {
                assert(s@ =~= joined(all.take(i as int)));
            } else {
                assert(s@ =~= joined(all.take(i as int)));
            }
        }
    }
    assert(all.take(keys@.len() as int) =~= all);
    s
}

} // verus!
