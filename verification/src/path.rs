//! Unix paths as text: joining two paths, and telling whether two texts name
//! the same path.
use crate::text::{
    chars_of, join2, law_split_joined, lemma_split_on_nonempty, same_text, split_on, split_text,
};
use vstd::prelude::*;
use vstd::string::*;

verus! {

/// Whether a path starts at the root.
pub open spec fn is_absolute(path: Seq<char>) -> bool {
    path.len() > 0 && path[0] == '/'
}

/// `part` seen from `base`: `part` itself if it is absolute, otherwise `base`
/// and `part` with one separator between them.
pub open spec fn joined(base: Seq<char>, part: Seq<char>) -> Seq<char> {
    if is_absolute(part) {
        part
    } else if base.len() == 0 || base.last() == '/' {
        base + part
    } else {
        base.push('/') + part
    }
}

/// The names among the pieces of a path. Empty pieces, from repeated or
/// trailing separators, count for nothing, and neither does a `.` that is not
/// the first piece.
pub open spec fn names_among(pieces: Seq<Seq<char>>) -> Seq<Seq<char>>
    decreases pieces.len(),
{
    if pieces.len() == 0 {
        Seq::empty()
    } else {
        let front = names_among(pieces.drop_last());
        let name = pieces.last();
        if name.len() == 0 || (name == "."@ && pieces.len() > 1) {
            front
        } else {
            front.push(name)
        }
    }
}

/// The names that a path goes through.
pub open spec fn path_names(path: Seq<char>) -> Seq<Seq<char>> {
    names_among(split_on(path, '/'))
}

/// Whether two texts name the same path: both absolute or both relative, and
/// through the same names.
pub open spec fn same_path(a: Seq<char>, b: Seq<char>) -> bool {
    is_absolute(a) == is_absolute(b) && path_names(a) == path_names(b)
}

/// `part` seen from `base`.
pub fn join_path(base: &str, part: &str) -> (path: String)
    ensures
        path@ == joined(base@, part@),
{
    let base_chars = chars_of(base);
    let part_chars = chars_of(part);
    if part_chars.len() > 0 && part_chars[0] == '/' {
        return part.to_owned();
    }
    if base_chars.len() == 0 || base_chars[base_chars.len() - 1] == '/' {
        return join2(base, part);
    }
    proof {
        reveal_strlit("/");
    }
    let mut path = join2(base, "/");
    assert(path@ =~= base@.push('/'));
    path.append(part);
    path
}

/// Whether a path starts at the root.
pub fn starts_at_root(path: &str) -> (absolute: bool)
    ensures
        absolute == is_absolute(path@),
{
    let chars = chars_of(path);
    chars.len() > 0 && chars[0] == '/'
}

/// The names that a path goes through.
pub fn names_of(path: &str) -> (names: Vec<String>)
    ensures
        names.deep_view() == path_names(path@),
{
    let pieces = split_text(path, '/');
    let ghost all = split_on(path@, '/');
    let mut names: Vec<String> = Vec::new();
    let mut i: usize = 0;
    assert(names.deep_view() =~= names_among(all.take(0)));
    while i < pieces.len()
        invariant
            i <= pieces.len(),
            pieces.deep_view() == all,
            names.deep_view() == names_among(all.take(i as int)),
        decreases pieces.len() - i,
    {
        let ghost before = names.deep_view();
        assert(all[i as int] == pieces@[i as int]@);
        assert(all.take(i + 1).drop_last() =~= all.take(i as int));
        assert(all.take(i + 1).last() == all[i as int]);
        if !pieces[i].as_str().is_empty() && !(i > 0 && same_text(pieces[i].as_str(), ".")) {
            names.push(pieces[i].clone());
            assert(names.deep_view() =~= before.push(all[i as int]));
        }
        i = i + 1;
    }
    assert(all.take(all.len() as int) =~= all);
    names
}

/// Whether two texts name the same path.
pub fn is_same_path(a: &str, b: &str) -> (same: bool)
    ensures
        same == same_path(a@, b@),
{
    if starts_at_root(a) != starts_at_root(b) {
        return false;
    }
    let names_a = names_of(a);
    let names_b = names_of(b);
    if names_a.len() != names_b.len() {
        assert(names_a.deep_view().len() != names_b.deep_view().len());
        return false;
    }
    let mut i: usize = 0;
    while i < names_a.len()
        invariant
            i <= names_a.len() == names_b.len(),
            names_a.deep_view() == path_names(a@),
            names_b.deep_view() == path_names(b@),
            forall|j: int| 0 <= j < i ==> names_a.deep_view()[j] == names_b.deep_view()[j],
        decreases names_a.len() - i,
    {
        if names_a[i] != names_b[i] {
            assert(names_a.deep_view()[i as int] != names_b.deep_view()[i as int]);
            return false;
        }
        assert(names_a.deep_view()[i as int] == names_b.deep_view()[i as int]);
        i = i + 1;
    }
    assert(names_a.deep_view() =~= names_b.deep_view());
    true
}

/// A name that stands for one entry of a directory.
pub open spec fn is_plain_name(name: Seq<char>) -> bool {
    name.len() > 0 && !name.contains('/') && name != "."@
}

pub proof fn lemma_split_without(s: Seq<char>, sep: char)
    requires
        !s.contains(sep),
    ensures
        split_on(s, sep) == seq![s],
    decreases s.len(),
{
    if s.len() > 0 {
        let front = s.drop_last();
        assert(!front.contains(sep)) by {
            assert forall|i: int| 0 <= i < front.len() implies front[i] != sep by {
                assert(s[i] == front[i]);
            }
        }
        lemma_split_without(front, sep);
        assert(s.last() == s[s.len() - 1]);
        assert(front.push(s.last()) =~= s);
        assert(split_on(s, sep) =~= seq![s]);
    } else {
        assert(s =~= Seq::<char>::empty());
    }
}

/// Joining a plain name to a directory goes one name deeper.
pub proof fn law_join_adds_a_name(base: Seq<char>, name: Seq<char>)
    requires
        is_plain_name(name),
    ensures
        path_names(joined(base, name)) == path_names(base).push(name),
        base.len() > 0 ==> is_absolute(joined(base, name)) == is_absolute(base),
{
    assert(!is_absolute(name)) by {
        if is_absolute(name) {
            assert(name.contains(name[0]));
        }
    }
    lemma_split_without(name, '/');
    if base.len() == 0 {
        assert(joined(base, name) =~= name);
        assert(seq![name].drop_last() =~= Seq::<Seq<char>>::empty());
        assert(split_on(base, '/').drop_last() =~= Seq::<Seq<char>>::empty());
        assert(split_on(base, '/').last() == Seq::<char>::empty());
        assert(names_among(Seq::<Seq<char>>::empty()) =~= Seq::<Seq<char>>::empty());
        assert(path_names(base) =~= Seq::<Seq<char>>::empty());
        assert(path_names(name) =~= seq![name]);
    } else {
        let front = if base.last() == '/' {
            base.drop_last()
        } else {
            base
        };
        assert(joined(base, name) =~= front.push('/') + name);
        law_split_joined(front, name, '/');
        let pieces = split_on(front, '/');
        assert(pieces + seq![name] =~= pieces.push(name));
        assert(pieces.push(name).drop_last() =~= pieces);
        if base.last() == '/' {
            assert(split_on(base, '/') == pieces.push(Seq::<char>::empty()));
            assert(pieces.push(Seq::<char>::empty()).drop_last() =~= pieces);
        }
    }
}

/// A path seen from a base: an absolute one is itself; another one comes after the
/// base, with a separator between the two where the base is there and has none at
/// its end.
pub proof fn law_join_puts_a_separator_between(base: Seq<char>, part: Seq<char>)
    ensures
        part.len() > 0 && part[0] == '/' ==> joined(base, part) == part,
        !(part.len() > 0 && part[0] == '/') ==> {
            let path = joined(base, part);
            let separated = base.len() > 0 && base[base.len() - 1] != '/';
            &&& path.len() == base.len() + part.len() + (if separated { 1int } else { 0 })
            &&& path.take(base.len() as int) == base
            &&& path.skip(path.len() - part.len()) == part
            &&& separated ==> path[base.len() as int] == '/'
        },
{
    if !(part.len() > 0 && part[0] == '/') {
        let path = joined(base, part);
        assert(path.take(base.len() as int) =~= base);
        assert(path.skip(path.len() - part.len()) =~= part);
    }
}

/// The names among pieces that come after others: there no `.` counts.
spec fn names_below(pieces: Seq<Seq<char>>) -> Seq<Seq<char>>
    decreases pieces.len(),
{
    if pieces.len() == 0 {
        Seq::empty()
    } else {
        let front = names_below(pieces.drop_last());
        if pieces.last().len() == 0 || pieces.last() == "."@ {
            front
        } else {
            front.push(pieces.last())
        }
    }
}

proof fn lemma_names_of_both(a: Seq<Seq<char>>, b: Seq<Seq<char>>)
    requires
        a.len() > 0,
    ensures
        names_among(a + b) == names_among(a) + names_below(b),
    decreases b.len(),
{
    if b.len() == 0 {
        assert(a + b =~= a);
        assert(names_among(a) + names_below(b) =~= names_among(a));
    } else {
        lemma_names_of_both(a, b.drop_last());
        assert((a + b).drop_last() =~= a + b.drop_last());
        assert((a + b).last() == b.last());
        assert(names_among(a + b) =~= names_among(a) + names_below(b));
    }
}

/// How often a separator is repeated, and a `.` between two separators, does not
/// matter to a path. Neither does a separator at the end.
pub proof fn law_separators_and_dots_do_not_matter(a: Seq<char>, b: Seq<char>)
    ensures
        same_path(a.push('/').push('/') + b, a.push('/') + b),
        same_path(a.push('/').push('.').push('/') + b, a.push('/') + b),
        a.len() > 0 ==> same_path(a.push('/'), a),
{
    reveal_strlit(".");
    let none = Seq::<char>::empty();
    let dot = seq!['.'];
    let x = split_on(a, '/');
    let y = split_on(b, '/');
    lemma_split_on_nonempty(a, '/');
    law_split_joined(a, b, '/');
    lemma_names_of_both(x, y);
    // A separator more.
    law_split_joined(a, none.push('/') + b, '/');
    law_split_joined(none, b, '/');
    lemma_split_without(none, '/');
    assert(a.push('/') + (none.push('/') + b) =~= a.push('/').push('/') + b);
    lemma_names_of_both(x, seq![none] + y);
    lemma_below_of_both(seq![none], y);
    assert(names_below(Seq::<Seq<char>>::empty()) =~= Seq::<Seq<char>>::empty());
    assert(seq![none].drop_last() =~= Seq::<Seq<char>>::empty());
    assert(names_below(seq![none]) =~= Seq::<Seq<char>>::empty());
    assert(names_below(seq![none]) + names_below(y) =~= names_below(y));
    // A dot more.
    law_split_joined(a, dot.push('/') + b, '/');
    law_split_joined(dot, b, '/');
    assert(!dot.contains('/'));
    lemma_split_without(dot, '/');
    assert(a.push('/') + (dot.push('/') + b) =~= a.push('/').push('.').push('/') + b);
    lemma_names_of_both(x, seq![dot] + y);
    lemma_below_of_both(seq![dot], y);
    assert(dot =~= "."@);
    assert(seq![dot].drop_last() =~= Seq::<Seq<char>>::empty());
    assert(names_below(seq![dot]) =~= Seq::<Seq<char>>::empty());
    assert(names_below(seq![dot]) + names_below(y) =~= names_below(y));
    // A separator at the end.
    law_split_joined(a, none, '/');
    assert(a.push('/') + none =~= a.push('/'));
    lemma_names_of_both(x, seq![none]);
    assert(names_among(x) + names_below(seq![none]) =~= names_among(x));
}

proof fn lemma_below_of_both(a: Seq<Seq<char>>, b: Seq<Seq<char>>)
    ensures
        names_below(a + b) == names_below(a) + names_below(b),
    decreases b.len(),
{
    if b.len() == 0 {
        assert(a + b =~= a);
        assert(names_below(a) + names_below(b) =~= names_below(a));
    } else {
        lemma_below_of_both(a, b.drop_last());
        assert((a + b).drop_last() =~= a + b.drop_last());
        assert((a + b).last() == b.last());
        assert(names_below(a + b) =~= names_below(a) + names_below(b));
    }
}

/// To name the same path is an equivalence, and an absolute path is never the same
/// as a relative one.
pub proof fn law_same_path_is_an_equivalence(a: Seq<char>, b: Seq<char>, c: Seq<char>)
    ensures
        same_path(a, a),
        same_path(a, b) ==> same_path(b, a),
        same_path(a, b) && same_path(b, c) ==> same_path(a, c),
        same_path(a, b) ==> ((a.len() > 0 && a[0] == '/') <==> (b.len() > 0 && b[0] == '/')),
{
}

/// Two entries of a directory are the same path exactly if they have the same name,
/// and no entry is the directory itself.
pub proof fn law_entries_differ_by_name(base: Seq<char>, a: Seq<char>, b: Seq<char>)
    requires
        is_plain_name(a),
        is_plain_name(b),
    ensures
        same_path(joined(base, a), joined(base, b)) <==> a == b,
        !same_path(joined(base, a), base),
{
    law_join_adds_a_name(base, a);
    law_join_adds_a_name(base, b);
    let names = path_names(base);
    assert(names.push(a).last() == a);
    assert(names.push(b).last() == b);
    assert(names.push(a).len() == names.len() + 1);
    if base.len() == 0 {
        assert(joined(base, a) =~= a);
        assert(joined(base, b) =~= b);
        assert(a.contains(a[0]) && b.contains(b[0]));
    }
}

/// A `.` in front of a relative path counts as a name.
pub proof fn law_leading_dot_counts(name: Seq<char>)
    requires
        is_plain_name(name),
    ensures
        !same_path(seq!['.', '/'] + name, name),
{
    reveal_strlit(".");
    let dot = seq!['.'];
    assert(dot =~= "."@);
    assert(!dot.contains('/'));
    lemma_split_without(dot, '/');
    lemma_split_without(name, '/');
    law_split_joined(dot, name, '/');
    assert(seq!['.', '/'] + name =~= dot.push('/') + name);
    let both = seq![dot] + seq![name];
    assert(both.drop_last() =~= seq![dot]);
    assert(seq![dot].drop_last() =~= Seq::<Seq<char>>::empty());
    assert(seq![name].drop_last() =~= Seq::<Seq<char>>::empty());
    assert(names_among(Seq::<Seq<char>>::empty()) =~= Seq::<Seq<char>>::empty());
    assert(names_among(seq![dot]).len() == 1);
    assert(names_among(both).len() == 2);
    assert(names_among(seq![name]).len() == 1);
}

} // verus!
