use vstd::prelude::*;
use vstd::std_specs::iter::IteratorSpec;
use vstd::string::*;

verus! {

broadcast use vstd::string::group_string_axioms;

/// `t` occurs in `s` as a contiguous run of characters.
pub open spec fn contains(s: Seq<char>, t: Seq<char>) -> bool {
    exists|i: int| 0 <= i <= s.len() - t.len() && #[trigger] s.subrange(i, i + t.len()) == t
}

/// The views of a sequence of strings.
pub open spec fn texts(v: Seq<String>) -> Seq<Seq<char>> {
    v.map_values(|s: String| s@)
}

pub open spec fn digit_char(d: nat) -> char {
    seq!['0', '1', '2', '3', '4', '5', '6', '7', '8', '9'][d as int]
}

/// Decimal notation of `n`, without leading zeros.
pub open spec fn decimal(n: nat) -> Seq<char>
    decreases n,
{
    if n < 10 {
        seq![digit_char(n)]
    } else {
        decimal(n / 10) + seq![digit_char(n % 10)]
    }
}

/// Items on lines of their own, each after "- ".
pub open spec fn bullets(items: Seq<Seq<char>>) -> Seq<char>
    decreases items.len(),
{
    if items.len() == 0 {
        Seq::empty()
    } else if items.len() == 1 {
        "- "@ + items[0]
    } else {
        bullets(items.drop_last()) + "\n- "@ + items.last()
    }
}

/// Items on lines of their own, each after its position counted from one.
pub open spec fn numbered(items: Seq<Seq<char>>) -> Seq<char>
    decreases items.len(),
{
    if items.len() == 0 {
        Seq::empty()
    } else if items.len() == 1 {
        decimal(1) + ". "@ + items[0]
    } else {
        numbered(items.drop_last()) + "\n"@ + decimal(items.len()) + ". "@ + items.last()
    }
}

pub proof fn lemma_contains_middle(a: Seq<char>, t: Seq<char>, b: Seq<char>)
    ensures
        contains(a + t + b, t),
{
    let s = a + t + b;
    assert(s.subrange(a.len() as int, (a.len() + t.len()) as int) =~= t);
}

pub proof fn lemma_contains_prefix(s: Seq<char>, t: Seq<char>, rest: Seq<char>)
    requires
        contains(s, t),
    ensures
        contains(s + rest, t),
{
    let i = choose|i: int| 0 <= i <= s.len() - t.len() && #[trigger] s.subrange(i, i + t.len()) == t;
    assert((s + rest).subrange(i, i + t.len()) =~= s.subrange(i, i + t.len()));
}

fn digit_text(d: usize) -> (r: &'static str)
    requires
        d < 10,
    ensures
        r@ == seq![digit_char(d as nat)],
{
    proof {
        reveal_strlit("0");
        reveal_strlit("1");
        reveal_strlit("2");
        reveal_strlit("3");
        reveal_strlit("4");
        reveal_strlit("5");
        reveal_strlit("6");
        reveal_strlit("7");
        reveal_strlit("8");
        reveal_strlit("9");
    }
    if d == 0 {
        "0"
    } else if d == 1 {
        "1"
    } else if d == 2 {
        "2"
    } else if d == 3 {
        "3"
    } else if d == 4 {
        "4"
    } else if d == 5 {
        "5"
    } else if d == 6 {
        "6"
    } else if d == 7 {
        "7"
    } else if d == 8 {
        "8"
    } else {
        "9"
    }
}

/// Decimal notation of `n`.
pub fn decimal_string(n: usize) -> (r: String)
    ensures
        r@ == decimal(n as nat),
    decreases n,
{
    if n < 10 {
        String::from_str(digit_text(n))
    } else {
        let mut s = decimal_string(n / 10);
        s.append(digit_text(n % 10));
        s
    }
}

/// Appends `item` to `items`.
pub fn add_item(items: &mut Vec<String>, item: &str)
    ensures
        texts(final(items)@) == texts(old(items)@).push(item@),
{
    items.push(String::from_str(item));
    assert(texts(final(items)@) =~= texts(old(items)@).push(item@));
}

/// The items as a bulleted list.
pub fn bullet_list(items: &Vec<String>) -> (r: String)
    ensures
        r@ == bullets(texts(items@)),
{
    let mut out = String::new();
    let mut i: usize = 0;
    while i < items.len()
        invariant
            i <= items.len(),
            out@ == bullets(texts(items@).take(i as int)),
        decreases items.len() - i,
    {
        let ghost done = texts(items@).take(i as int);
        let ghost next = texts(items@).take(i as int + 1);
        assert(next.drop_last() =~= done);
        if i == 0 {
            out.append("- ");
        } else {
            out.append("\n- ");
        }
        out.append(items[i].as_str());
        i = i + 1;
    }
    assert(texts(items@).take(i as int) =~= texts(items@));
    out
}

/// The items as a numbered list, counted from one.
pub fn numbered_list(items: &Vec<String>) -> (r: String)
    ensures
        r@ == numbered(texts(items@)),
{
    let mut out = String::new();
    let mut i: usize = 0;
    while i < items.len()
        invariant
            i <= items.len(),
            out@ == numbered(texts(items@).take(i as int)),
        decreases items.len() - i,
    {
        let ghost done = texts(items@).take(i as int);
        let ghost next = texts(items@).take(i as int + 1);
        assert(next.drop_last() =~= done);
        if i > 0 {
            out.append("\n");
        }
        let number = decimal_string(i + 1);
        out.append(number.as_str());
        out.append(". ");
        out.append(items[i].as_str());
        i = i + 1;
    }
    assert(texts(items@).take(i as int) =~= texts(items@));
    out
}

/// The runs of `s` between newlines, in order; there is always one more run
/// than there are newlines.
pub open spec fn pieces(s: Seq<char>) -> Seq<Seq<char>>
    decreases s.len(),
{
    if s.len() == 0 {
        seq![Seq::empty()]
    } else {
        let p = pieces(s.drop_last());
        if s.last() == '\n' {
            p.push(Seq::empty())
        } else {
            p.update(p.len() - 1, p.last().push(s.last()))
        }
    }
}

proof fn lemma_pieces_nonempty(s: Seq<char>)
    ensures
        pieces(s).len() >= 1,
    decreases s.len(),
{
    if s.len() > 0 {
        lemma_pieces_nonempty(s.drop_last());
    }
}

/// Relies on String::push, which appends one character.
#[verifier::external_body]
fn push_char(s: &mut String, c: char)
    ensures
        final(s)@ == old(s)@.push(c),
{
    s.push(c)
}

/// The text cut at each newline, newlines left out.
pub fn split_lines(text: &str) -> (r: Vec<String>)
    ensures
        texts(r@) == pieces(text@),
{
    let mut done: Vec<String> = Vec::new();
    let mut cur = String::new();
    let mut it = text.chars();
    let ghost seen: Seq<char> = Seq::empty();
    assert(pieces(seen) =~= texts(done@).push(cur@));
    loop
        invariant
            text@ == seen + it.remaining(),
            pieces(seen) == texts(done@).push(cur@),
            it.decrease() is Some,
        decreases it.decrease()->0,
    {
        match it.next() {
            Some(c) => {
                let ghost before = seen;
                proof {
                    seen = seen.push(c);
                    assert(seen.drop_last() =~= before);
                    lemma_pieces_nonempty(before);
                }
                assert(text@ =~= seen + it.remaining());
                if c == '\n' {
                    let line = cur;
                    done.push(line);
                    cur = String::new();
                    assert(pieces(seen) =~= texts(done@).push(cur@));
                } else {
                    push_char(&mut cur, c);
                    assert(pieces(seen) =~= texts(done@).push(cur@));
                }
            },
            None => {
                assert(it.remaining().len() == 0);
                assert(seen =~= text@);
                let ghost before = done@;
                done.push(cur);
                assert(texts(done@) =~= texts(before).push(done@.last()@));
                return done;
            },
        }
    }
}

} // verus!
