//! Joining texts, and the small marks that signatures are written with.

use vstd::prelude::*;

verus! {

/// The parts in order, with `sep` between neighbours.
pub open spec fn join(parts: Seq<Seq<char>>, sep: Seq<char>) -> Seq<char>
    decreases parts.len(),
{
    if parts.len() == 0 {
        Seq::empty()
    } else if parts.len() == 1 {
        parts[0]
    } else {
        join(parts.drop_last(), sep) + sep + parts.last()
    }
}

/// The parts in order, with `sep` between neighbours and, where `trailing` is set
/// and there is any part at all, once more at the end.
pub open spec fn joined(parts: Seq<Seq<char>>, sep: Seq<char>, trailing: bool) -> Seq<char> {
    if parts.len() == 0 {
        Seq::empty()
    } else if trailing {
        join(parts, sep) + sep
    } else {
        join(parts, sep)
    }
}

/// The texts of a list of strings.
pub open spec fn texts(parts: Seq<String>) -> Seq<Seq<char>> {
    Seq::new(parts.len(), |i: int| parts[i]@)
}

pub open spec fn optional_mark(is_optional: bool) -> Seq<char> {
    if is_optional {
        "?"@
    } else {
        Seq::empty()
    }
}

pub open spec fn readonly_mark(is_readonly: bool) -> Seq<char> {
    if is_readonly {
        "readonly "@
    } else {
        Seq::empty()
    }
}

pub open spec fn computed_name(is_computed: bool, name: Seq<char>) -> Seq<char> {
    if is_computed {
        "["@ + name + "]"@
    } else {
        name
    }
}

pub open spec fn bool_text(value: bool) -> Seq<char> {
    if value {
        "true"@
    } else {
        "false"@
    }
}

/// Joining one more part: the separator comes first unless the part is the first.
pub proof fn lemma_join_push(parts: Seq<Seq<char>>, sep: Seq<char>, part: Seq<char>)
    ensures
        join(parts.push(part), sep) == if parts.len() == 0 {
            part
        } else {
            join(parts, sep) + sep + part
        },
{
    let all = parts.push(part);
    assert(all.drop_last() =~= parts);
    assert(all.last() == part);
    if parts.len() == 0 {
        assert(all.len() == 1);
        assert(all[0] == part);
    }
}

/// Concatenates `parts` with `sep` between neighbours; with `trailing`, a
/// non-empty result ends in one more `sep`.
pub fn join_strings(parts: &Vec<String>, sep: &str, trailing: bool) -> (out: String)
    ensures
        out@ == joined(texts(parts@), sep@, trailing),
{
    let mut out = String::new();
    let mut i: usize = 0;
    let ghost all = texts(parts@);
    assert(all.take(0) =~= Seq::<Seq<char>>::empty());
    while i < parts.len()
        invariant
            i <= parts.len(),
            all == texts(parts@),
            out@ == join(all.take(i as int), sep@),
        decreases parts.len() - i,
    {
        if i > 0 {
            out.append(sep);
        }
        out.append(parts[i].as_str());
        proof {
            lemma_join_push(all.take(i as int), sep@, all[i as int]);
            assert(all.take(i as int).push(all[i as int]) =~= all.take(i as int + 1));
            if i == 0 {
                assert(out@ =~= all[0]);
            }
        }
        i += 1;
    }
    proof {
        assert(all.take(parts.len() as int) =~= all);
    }
    if trailing && parts.len() > 0 {
        out.append(sep);
    }
    out
}

pub fn display_optional(is_optional: bool) -> (mark: &'static str)
    ensures
        mark@ == optional_mark(is_optional),
{
    if is_optional {
        "?"
    } else {
        proof {
            reveal_strlit("");
            assert(""@ =~= Seq::<char>::empty());
        }
        ""
    }
}

pub fn display_readonly(is_readonly: bool) -> (mark: &'static str)
    ensures
        mark@ == readonly_mark(is_readonly),
{
    if is_readonly {
        "readonly "
    } else {
        proof {
            reveal_strlit("");
            assert(""@ =~= Seq::<char>::empty());
        }
        ""
    }
}

pub fn display_computed(is_computed: bool, name: &str) -> (out: String)
    ensures
        out@ == computed_name(is_computed, name@),
{
    if is_computed {
        let mut out = String::from_str("[");
        out.append(name);
        out.append("]");
        out
    } else {
        String::from_str(name)
    }
}

pub fn display_bool(value: bool) -> (text: &'static str)
    ensures
        text@ == bool_text(value),
{
    if value {
        "true"
    } else {
        "false"
    }
}

} // verus!
