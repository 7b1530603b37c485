//! Rendering of library values to SQL text.
use vstd::prelude::*;

verus! {

/// The text of `parts`, in order, with `sep` between two neighbours.
pub open spec fn join(parts: Seq<Seq<char>>, sep: Seq<char>) -> Seq<char>
    decreases parts.len(),
{
    if parts.len() == 0 {
        Seq::empty()
    } else if parts.len() == 1 {
        parts[0]
    } else {
        join(parts.drop_last(), sep) + sep + parts.last()
    }
}

/// A value with a SQL text form.
pub trait Render: Sized {
    /// The SQL text of this value.
    spec fn text(&self) -> Seq<char>;

    /// Writes the SQL text of this value.
    fn render(&self) -> (r: String)
        ensures
            r@ == self.text(),
    ;
}

/// The texts of `items`, in order.
pub open spec fn texts<T: Render>(items: Seq<T>) -> Seq<Seq<char>> {
    items.map_values(|x: T| x.text())
}

/// The texts of `items` joined with `sep`.
pub open spec fn list_text<T: Render>(items: Seq<T>, sep: Seq<char>) -> Seq<char> {
    join(texts(items), sep)
}

/// Renders `items` in order with `sep` between two neighbours.
pub fn render_list<T: Render>(items: &Vec<T>, sep: &str) -> (r: String)
    ensures
        r@ == list_text(items@, sep@),
{
    let mut out = String::new();
    let mut i: usize = 0;
    while i < items.len()
        invariant
            i <= items@.len(),
            out@ == list_text(items@.subrange(0, i as int), sep@),
        decreases items@.len() - i,
    {
        let ghost before = texts(items@.subrange(0, i as int));
        if i > 0 {
            out.append(sep);
        }
        let part = items[i].render();
        out.append(part.as_str());
        proof {
            let after = texts(items@.subrange(0, i + 1));
            assert(after.drop_last() =~= before);
            assert(after.last() == items@[i as int].text());
        }
        i = i + 1;
    }
    assert(items@.subrange(0, items@.len() as int) =~= items@);
    out
}

} // verus!
