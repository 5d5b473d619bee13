//! The server's partial-update body: fields separated by `|`, in records of
//! `length|kind|name|payload`. A named field is read as the field that
//! follows the first field equal to the name.
use crate::html::opt_view;
use crate::text::{chars_of, lemma_split_nonempty, same_chars, split, split_chars, string_of, views_of};
use vstd::prelude::*;

verus! {

/// The index of the first element of `f` equal to `t`.
pub open spec fn position_of(f: Seq<Seq<char>>, t: Seq<char>) -> Option<int>
    decreases f.len(),
{
    if f.len() == 0 {
        None
    } else if f[0] == t {
        Some(0)
    } else {
        match position_of(f.drop_first(), t) {
            Some(p) => Some(p + 1),
            None => None,
        }
    }
}

/// The field after the first field of `body` equal to `name`.
pub open spec fn delta_field(body: Seq<char>, name: Seq<char>) -> Option<Seq<char>> {
    field_after(split(body, '|'), name)
}

/// The element of `f` after the first one equal to `name`.
pub open spec fn field_after(f: Seq<Seq<char>>, name: Seq<char>) -> Option<Seq<char>> {
    match position_of(f, name) {
        Some(p) => if p + 1 < f.len() {
            Some(f[p + 1])
        } else {
            None
        },
        None => None,
    }
}

proof fn lemma_position_found(f: Seq<Seq<char>>, t: Seq<char>, i: int)
    requires
        0 <= i < f.len(),
        f[i] == t,
        forall|j: int| 0 <= j < i ==> f[j] != t,
    ensures
        position_of(f, t) == Some(i),
    decreases i,
{
    if i > 0 {
        assert(f[0] != t);
        assert forall|j: int| 0 <= j < i - 1 implies f.drop_first()[j] != t by {
            assert(f.drop_first()[j] == f[j + 1]);
        }
        lemma_position_found(f.drop_first(), t, i - 1);
    }
}

proof fn lemma_position_absent(f: Seq<Seq<char>>, t: Seq<char>)
    requires
        forall|j: int| 0 <= j < f.len() ==> f[j] != t,
    ensures
        position_of(f, t) == None::<int>,
    decreases f.len(),
{
    if f.len() > 0 {
        assert(f[0] != t);
        assert forall|j: int| 0 <= j < f.len() - 1 implies f.drop_first()[j] != t by {
            assert(f.drop_first()[j] == f[j + 1]);
        }
        lemma_position_absent(f.drop_first(), t);
    }
}

proof fn lemma_position_bounds(f: Seq<Seq<char>>, t: Seq<char>)
    ensures
        position_of(f, t) matches Some(p) ==> 0 <= p < f.len() && f[p] == t,
    decreases f.len(),
{
    if f.len() > 0 && f[0] != t {
        lemma_position_bounds(f.drop_first(), t);
    }
}

/// The field that follows the first field equal to `name`, or `None` where
/// no field equals `name` or it is the last one.
pub fn give_html_delta(html: &str, type_of: &str) -> (r: Option<String>)
    ensures
        opt_view(r) == delta_field(html@, type_of@),
{
    let cs = chars_of(html);
    let target = chars_of(type_of);
    let fields = split_chars(&cs, '|');
    let ghost f = split(html@, '|');
    proof {
        lemma_split_nonempty(html@, '|');
        lemma_position_bounds(f, type_of@);
    }
    assert(fields@.len() == f.len());
    let mut i: usize = 0;
    while i < fields.len()
        invariant
            i <= fields@.len() == f.len(),
            views_of(fields@) == f,
            f == split(html@, '|'),
            target@ == type_of@,
            forall|j: int| 0 <= j < i ==> f[j] != type_of@,
        decreases fields.len() - i,
    {
        assert(f[i as int] == fields@[i as int]@);
        if same_chars(&fields[i], &target) {
            proof {
                lemma_position_found(f, type_of@, i as int);
            }
            assert(position_of(f, type_of@) == Some(i as int));
            if i + 1 < fields.len() {
                assert(f[i + 1] == fields@[i + 1]@);
                let r = string_of(&fields[i + 1]);
                assert(delta_field(html@, type_of@) == Some(f[i + 1]));
                return Some(r);
            } else {
                assert(delta_field(html@, type_of@) == None::<Seq<char>>);
                return None;
            }
        }
        i = i + 1;
    }
    proof {
        lemma_position_absent(f, type_of@);
    }
    None
}

} // verus!

verus! {

/// The delta body whose fields are `fs`, each followed by `|`.
pub open spec fn frame(fs: Seq<Seq<char>>) -> Seq<char>
    decreases fs.len(),
{
    if fs.len() == 0 {
        Seq::empty()
    } else {
        fs[0] + seq!['|'] + frame(fs.drop_first())
    }
}

/// Splitting a framed body gives back its fields, and one empty field after
/// the final separator.
pub proof fn lemma_split_frame(fs: Seq<Seq<char>>)
    requires
        forall|i: int| 0 <= i < fs.len() ==> !crate::text::has_char(#[trigger] fs[i], '|'),
    ensures
        split(frame(fs), '|') == fs.push(Seq::<char>::empty()),
    decreases fs.len(),
{
    if fs.len() == 0 {
        assert(split(Seq::<char>::empty(), '|') =~= seq![Seq::<char>::empty()]);
        assert(fs.push(Seq::<char>::empty()) =~= seq![Seq::<char>::empty()]);
    } else {
        let rest = fs.drop_first();
        assert forall|i: int| 0 <= i < rest.len() implies !crate::text::has_char(#[trigger] rest[i], '|') by {
            assert(rest[i] == fs[i + 1]);
        }
        lemma_split_frame(rest);
        assert(!crate::text::has_char(fs[0], '|'));
        crate::text::lemma_split_field(fs[0], '|', frame(rest));
        assert(seq![fs[0]] + rest.push(Seq::<char>::empty()) =~= fs.push(Seq::<char>::empty()));
    }
}

/// In a framed body, the field after the first occurrence of a name is read
/// back exactly.
pub proof fn lemma_frame_field(fs: Seq<Seq<char>>, i: int)
    requires
        forall|j: int| 0 <= j < fs.len() ==> !crate::text::has_char(#[trigger] fs[j], '|'),
        0 <= i < fs.len() - 1,
        forall|j: int| 0 <= j < i ==> fs[j] != fs[i],
    ensures
        delta_field(frame(fs), fs[i]) == Some(fs[i + 1]),
{
    lemma_split_frame(fs);
    let f = fs.push(Seq::<char>::empty());
    assert forall|j: int| 0 <= j < i implies f[j] != fs[i] by {
        assert(f[j] == fs[j]);
    }
    lemma_position_found(f, fs[i], i);
    assert(f[i + 1] == fs[i + 1]);
}

} // verus!
