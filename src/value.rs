//! Literal values and their SQL text.
use vstd::prelude::*;
use crate::render::Render;

verus! {

/// A scalar constant of SQL.
#[derive(Clone, Debug, PartialEq, Eq)]
pub enum Value {
    Null,
    Bool(bool),
    Int(i64),
    Text(String),
}

/// The decimal digit `d` as a character.
pub open spec fn digit_char(d: nat) -> char {
    if d == 0 {
        '0'
    } else if d == 1 {
        '1'
    } else if d == 2 {
        '2'
    } else if d == 3 {
        '3'
    } else if d == 4 {
        '4'
    } else if d == 5 {
        '5'
    } else if d == 6 {
        '6'
    } else if d == 7 {
        '7'
    } else if d == 8 {
        '8'
    } else {
        '9'
    }
}

/// The decimal digits of `n`, most significant first, without leading zeros.
pub open spec fn nat_digits(n: nat) -> Seq<char>
    decreases n,
{
    if n < 10 {
        seq![digit_char(n)]
    } else {
        nat_digits(n / 10).push(digit_char(n % 10))
    }
}

/// The canonical decimal text of `n`: a minus sign for negative numbers, then the digits.
pub open spec fn int_text(n: int) -> Seq<char> {
    if n < 0 {
        seq!['-'] + nat_digits((-n) as nat)
    } else {
        nat_digits(n as nat)
    }
}

/// `s` with each single quote doubled.
pub open spec fn escape_quotes(s: Seq<char>) -> Seq<char>
    decreases s.len(),
{
    if s.len() == 0 {
        Seq::empty()
    } else if s.last() == '\'' {
        escape_quotes(s.drop_last()) + seq!['\'', '\'']
    } else {
        escape_quotes(s.drop_last()).push(s.last())
    }
}

/// `s` as a SQL string literal: between single quotes, inner quotes doubled.
pub open spec fn quoted(s: Seq<char>) -> Seq<char> {
    seq!['\''] + escape_quotes(s) + seq!['\'']
}

/// The SQL text of a value.
pub open spec fn value_text(v: Value) -> Seq<char> {
    match v {
        Value::Null => "NULL"@,
        Value::Bool(b) => if b { "true"@ } else { "false"@ },
        Value::Int(n) => int_text(n as int),
        Value::Text(s) => quoted(s@),
    }
}

/// Reads the inside of a SQL string literal, after its opening quote: two quotes in a row
/// stand for one quote, a lone quote closes the literal. Gives the text read and what
/// follows the closing quote, or nothing where the literal is not closed.
pub open spec fn read_quoted(t: Seq<char>) -> Option<(Seq<char>, Seq<char>)>
    decreases t.len(),
{
    if t.len() == 0 {
        None
    } else if t[0] == '\'' {
        if t.len() >= 2 && t[1] == '\'' {
            match read_quoted(t.subrange(2, t.len() as int)) {
                Some((c, r)) => Some((seq!['\''] + c, r)),
                None => None,
            }
        } else {
            Some((Seq::empty(), t.drop_first()))
        }
    } else {
        match read_quoted(t.drop_first()) {
            Some((c, r)) => Some((seq![t[0]] + c, r)),
            None => None,
        }
    }
}

/// The escaped form of one character.
pub open spec fn escape_char(c: char) -> Seq<char> {
    if c == '\'' {
        seq!['\'', '\'']
    } else {
        seq![c]
    }
}

proof fn lemma_escape_front(c: char, s: Seq<char>)
    ensures
        escape_quotes(seq![c] + s) == escape_char(c) + escape_quotes(s),
    decreases s.len(),
{
    let cs = seq![c] + s;
    if s.len() == 0 {
        assert(cs =~= seq![c]);
        assert(cs.drop_last() =~= Seq::<char>::empty());
        assert(s =~= Seq::<char>::empty());
        assert(escape_quotes(s) == Seq::<char>::empty());
        assert(escape_quotes(cs.drop_last()) == Seq::<char>::empty());
        assert(escape_quotes(cs) =~= escape_char(c) + escape_quotes(s));
    } else {
        assert(cs.drop_last() =~= seq![c] + s.drop_last());
        assert(cs.last() == s.last());
        lemma_escape_front(c, s.drop_last());
        if s.last() == '\'' {
            assert(escape_quotes(cs) =~= escape_char(c) + escape_quotes(s));
        } else {
            assert(escape_quotes(cs) =~= escape_char(c) + escape_quotes(s));
        }
    }
}

/// Text literals stay closed: reading the rendered literal of `s` back by the quoting rule
/// of SQL gives `s` itself, and the literal ends at its own closing quote, when what follows
/// does not start with a quote.
pub proof fn lemma_quoted_reads_back(s: Seq<char>, rest: Seq<char>)
    requires
        rest.len() == 0 || rest[0] != '\'',
    ensures
        quoted(s)[0] == '\'',
        read_quoted(quoted(s).drop_first() + rest) == Some((s, rest)),
    decreases s.len(),
{
    let t = quoted(s).drop_first() + rest;
    assert(quoted(s).drop_first() =~= escape_quotes(s) + seq!['\'']);
    if s.len() == 0 {
        assert(t =~= seq!['\''] + rest);
        assert(t.drop_first() =~= rest);
        assert(escape_quotes(s) == Seq::<char>::empty());
        assert(read_quoted(t) == Some((Seq::<char>::empty(), rest)));
        assert(s =~= Seq::<char>::empty());
    } else {
        let c = s[0];
        let tail = s.drop_first();
        assert(s =~= seq![c] + tail);
        lemma_escape_front(c, tail);
        lemma_quoted_reads_back(tail, rest);
        let inner = quoted(tail).drop_first() + rest;
        assert(quoted(tail).drop_first() =~= escape_quotes(tail) + seq!['\'']);
        assert(t =~= escape_char(c) + inner);
        if c == '\'' {
            assert(t.subrange(2, t.len() as int) =~= inner);
            assert(seq!['\''] + tail =~= s);
        } else {
            assert(t.drop_first() =~= inner);
            assert(seq![c] + tail =~= s);
        }
    }
}

fn digit_str(d: u64) -> (r: &'static str)
    requires
        d < 10,
    ensures
        r@ == seq![digit_char(d as nat)],
{
    proof {
        reveal_strlit("0");
        reveal_strlit("1");
        reveal_strlit("2");
        reveal_strlit("3");
        reveal_strlit("4");
        reveal_strlit("5");
        reveal_strlit("6");
        reveal_strlit("7");
        reveal_strlit("8");
        reveal_strlit("9");
    }
    if d == 0 {
        "0"
    } else if d == 1 {
        "1"
    } else if d == 2 {
        "2"
    } else if d == 3 {
        "3"
    } else if d == 4 {
        "4"
    } else if d == 5 {
        "5"
    } else if d == 6 {
        "6"
    } else if d == 7 {
        "7"
    } else if d == 8 {
        "8"
    } else {
        "9"
    }
}

fn push_digits(out: &mut String, n: u64)
    ensures
        final(out)@ == old(out)@ + nat_digits(n as nat),
    decreases n,
{
    if n >= 10 {
        push_digits(out, n / 10);
    }
    out.append(digit_str(n % 10));
    proof {
        if n >= 10 {
            assert(old(out)@ + nat_digits(n as nat) =~= old(out)@ + nat_digits((n / 10) as nat)
                + seq![digit_char((n % 10) as nat)]);
        }
    }
}

/// Writes `n` in canonical decimal form.
pub fn int_to_text(n: i64) -> (r: String)
    ensures
        r@ == int_text(n as int),
{
    let mut out = String::new();
    proof {
        reveal_strlit("-");
    }
    if n < 0 {
        out.append("-");
        let m: u64 = (-(n as i128)) as u64;
        push_digits(&mut out, m);
    } else {
        push_digits(&mut out, n as u64);
    }
    out
}

/// Writes `s` as a SQL string literal, doubling each single quote inside it.
pub fn quote_text(s: &str) -> (r: String)
    ensures
        r@ == quoted(s@),
{
    let mut out = String::new();
    proof {
        reveal_strlit("'");
        reveal_strlit("''");
    }
    out.append("'");
    let len = s.unicode_len();
    let mut i: usize = 0;
    while i < len
        invariant
            len == s@.len(),
            i <= len,
            out@ == seq!['\''] + escape_quotes(s@.subrange(0, i as int)),
        decreases len - i,
    {
        let c = s.get_char(i);
        let ghost prev = out@;
        if c == '\'' {
            out.append("''");
        } else {
            out.append(s.substring_char(i, i + 1));
        }
        proof {
            let pre = s@.subrange(0, i + 1);
            assert(pre.drop_last() =~= s@.subrange(0, i as int));
            assert(pre.last() == c);
            assert(s@.subrange(i as int, i + 1) =~= seq![c]);
            let done = escape_quotes(s@.subrange(0, i as int));
            if c == '\'' {
                assert(escape_quotes(pre) == done + seq!['\'', '\'']);
                reveal_strlit("''");
                assert("''"@ =~= seq!['\'', '\'']);
                assert(out@ =~= seq!['\''] + escape_quotes(pre));
            } else {
                assert(escape_quotes(pre) == done.push(c));
                assert(out@ =~= seq!['\''] + escape_quotes(pre));
            }
        }
        i = i + 1;
    }
    assert(s@.subrange(0, len as int) =~= s@);
    out.append("'");
    out
}

impl Render for Value {
    open spec fn text(&self) -> Seq<char> {
        value_text(*self)
    }

    fn render(&self) -> (r: String) {
        proof {
            reveal_strlit("NULL");
            reveal_strlit("true");
            reveal_strlit("false");
        }
        match self {
            Value::Null => {
                assert(self.text() == "NULL"@);
                String::from_str("NULL")
            },
            Value::Bool(b) => if *b {
                String::from_str("true")
            } else {
                String::from_str("false")
            },
            Value::Int(n) => int_to_text(*n),
            Value::Text(s) => quote_text(s.as_str()),
        }
    }
}

} // verus!
