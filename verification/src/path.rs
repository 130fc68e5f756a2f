//! Dotted paths into a settings tree.

use crate::text::{decimal, join, push_decimal};
use vstd::prelude::*;
use vstd::string::StringExecFns;

verus! {

/// One step of a path: a field by name, or an element by position.
#[derive(Clone, Debug)]
pub enum PathSegment {
    Name(String),
    Index(usize),
}

impl PathSegment {
    /// What `display` prints of this segment.
    pub open spec fn display_text(self) -> Seq<char> {
        match self {
            PathSegment::Name(name) => name@,
            PathSegment::Index(index) => seq!['['] + decimal(index as nat) + seq![']'],
        }
    }

    /// A name as it stands, an index in square brackets.
    pub fn display(&self) -> (r: String)
        ensures
            r@ == self.display_text(),
    {
        match self {
            PathSegment::Name(name) => name.clone(),
            PathSegment::Index(index) => {
                let mut s = String::new();
                s.push('[');
                push_decimal(&mut s, *index as u64);
                s.push(']');
                assert(s@ =~= self.display_text());
                s
            },
        }
    }
}

impl From<&str> for PathSegment {
    fn from(value: &str) -> (r: Self)
        ensures
            r matches PathSegment::Name(name) && name@ == value@,
    {
        PathSegment::Name(value.to_owned())
    }
}

impl vstd::std_specs::convert::FromSpecImpl<&str> for PathSegment {
    open spec fn obeys_from_spec() -> bool {
        false
    }

    open spec fn from_spec(v: &str) -> Self {
        arbitrary()
    }
}

impl From<String> for PathSegment {
    fn from(value: String) -> (r: Self) {
        PathSegment::Name(value)
    }
}

impl vstd::std_specs::convert::FromSpecImpl<String> for PathSegment {
    open spec fn obeys_from_spec() -> bool {
        true
    }

    open spec fn from_spec(v: String) -> Self {
        PathSegment::Name(v)
    }
}

impl From<usize> for PathSegment {
    fn from(value: usize) -> (r: Self) {
        PathSegment::Index(value)
    }
}

impl vstd::std_specs::convert::FromSpecImpl<usize> for PathSegment {
    open spec fn obeys_from_spec() -> bool {
        true
    }

    open spec fn from_spec(v: usize) -> Self {
        PathSegment::Index(v)
    }
}

/// The pieces of `s` between the occurrences of `sep`.
pub open spec fn split(s: Seq<char>, sep: char) -> Seq<Seq<char>>
    decreases s.len(),
{
    if s.len() == 0 {
        seq![Seq::empty()]
    } else {
        let head = split(s.drop_last(), sep);
        if s.last() == sep {
            head.push(Seq::empty())
        } else {
            head.update(head.len() - 1, head.last().push(s.last()))
        }
    }
}

/// The segments are names, and these are the names.
pub open spec fn are_names(segments: Seq<PathSegment>, names: Seq<Seq<char>>) -> bool {
    &&& segments.len() == names.len()
    &&& forall|i: int|
        0 <= i < segments.len() ==> (#[trigger] segments[i] matches PathSegment::Name(name)
            && name@ == names[i])
}

/// Splits a path at its dots, each piece being the name of a segment.
pub fn parse_path(path: &str) -> (r: Vec<PathSegment>)
    ensures
        are_names(r@, split(path@, '.')),
        r@.len() == split(path@, '.').len(),
        forall|i: int|
            0 <= i < r@.len() ==> (#[trigger] r@[i] matches PathSegment::Name(name) && name@
                == split(path@, '.')[i]),
{
    let mut segments: Vec<PathSegment> = Vec::new();
    let mut current = String::new();
    assert(split(Seq::empty(), '.') =~= seq![Seq::<char>::empty()]);
    assert(path@.take(0) =~= Seq::empty());
    for c in rest: path.chars()
        invariant
            rest.seq() == path@,
            are_names(segments@, split(path@.take(rest.index()), '.').drop_last()),
            split(path@.take(rest.index()), '.').len() > 0,
            current@ == split(path@.take(rest.index()), '.').last(),
    {
        let ghost read = path@.take(rest.index());
        let ghost pieces = split(read, '.');
        proof {
            assert(path@.take(rest.index() + 1) =~= read.push(c));
            assert(read.push(c).drop_last() =~= read);
        }
        if c == '.' {
            segments.push(PathSegment::from(current));
            current = String::new();
            assert(split(read.push(c), '.').drop_last() =~= pieces);
        } else {
            current.push(c);
            assert(split(read.push(c), '.').drop_last() =~= pieces.drop_last());
        }
    }
    assert(path@.take(path@.len() as int) =~= path@);
    segments.push(PathSegment::from(current));
    segments
}

/// Joining the pieces of a split text with the separator gives the text back, no piece holds the
/// separator, and there is one piece more than there are separators.
pub proof fn law_split_loses_nothing(s: Seq<char>, sep: char)
    ensures
        join(split(s, sep), seq![sep]) == s,
        forall|i: int| 0 <= i < split(s, sep).len() ==> !(#[trigger] split(s, sep)[i]).contains(sep),
        split(s, sep).len() == s.filter(|c: char| c == sep).len() + 1,
    decreases s.len(),
{
    let is_sep = |c: char| c == sep;
    if s.len() == 0 {
        assert(split(s, sep)[0] =~= s);
        reveal(Seq::filter);
    } else {
        let t = s.drop_last();
        let head = split(t, sep);
        law_split_loses_nothing(t, sep);
        reveal(Seq::filter);
        if s.last() == sep {
            let pieces = head.push(Seq::empty());
            assert(pieces.drop_last() =~= head);
            assert(join(pieces, seq![sep]) =~= s);
        } else {
            let pieces = head.update(head.len() - 1, head.last().push(s.last()));
            assert(pieces.drop_last() =~= head.drop_last());
            assert(join(pieces, seq![sep]) =~= join(head, seq![sep]).push(s.last()));
            assert forall|i: int| 0 <= i < pieces.len() implies !(
            #[trigger] pieces[i]).contains(sep) by {
                assert(!head[i].contains(sep));
                if i == head.len() - 1 && pieces[i].contains(sep) {
                    let k = choose|k: int| 0 <= k < pieces[i].len() && pieces[i][k] == sep;
                    assert(k < head[i].len());
                    assert(head[i][k] == sep);
                }
            }
            assert(t.push(s.last()) =~= s);
        }
    }
}

/// A text with one more piece at its end splits into its pieces and that one.
proof fn lemma_split_one_more(s: Seq<char>, piece: Seq<char>, sep: char)
    requires
        !piece.contains(sep),
    ensures
        split(s + seq![sep] + piece, sep) == split(s, sep).push(piece),
    decreases piece.len(),
{
    let whole = s + seq![sep] + piece;
    if piece.len() == 0 {
        assert(whole.drop_last() =~= s);
        assert(piece =~= Seq::empty());
    } else {
        let shorter = piece.drop_last();
        assert(piece[piece.len() - 1] != sep);
        assert forall|i: int| 0 <= i < shorter.len() implies shorter[i] != sep by {
            assert(piece[i] != sep);
        }
        lemma_split_one_more(s, shorter, sep);
        assert(whole.drop_last() =~= s + seq![sep] + shorter);
        assert(shorter.push(piece.last()) =~= piece);
        assert(split(whole, sep) =~= split(s, sep).push(piece));
    }
}

/// A text without the separator is its only piece.
proof fn lemma_split_single(piece: Seq<char>, sep: char)
    requires
        !piece.contains(sep),
    ensures
        split(piece, sep) == seq![piece],
    decreases piece.len(),
{
    if piece.len() > 0 {
        let shorter = piece.drop_last();
        assert(piece[piece.len() - 1] != sep);
        assert forall|i: int| 0 <= i < shorter.len() implies shorter[i] != sep by {
            assert(piece[i] != sep);
        }
        lemma_split_single(shorter, sep);
        assert(shorter.push(piece.last()) =~= piece);
        assert(split(piece, sep) =~= seq![piece]);
    } else {
        assert(piece =~= Seq::empty());
    }
}

/// Splitting what was joined gives the pieces back, where there are any and none holds the separator.
pub proof fn law_joined_pieces_split(pieces: Seq<Seq<char>>, sep: char)
    requires
        pieces.len() > 0,
        forall|i: int| 0 <= i < pieces.len() ==> !(#[trigger] pieces[i]).contains(sep),
    ensures
        split(join(pieces, seq![sep]), sep) == pieces,
    decreases pieces.len(),
{
    assert(!pieces[pieces.len() - 1].contains(sep));
    if pieces.len() == 1 {
        lemma_split_single(pieces[0], sep);
        assert(seq![pieces[0]] =~= pieces);
    } else {
        let head = pieces.drop_last();
        assert forall|i: int| 0 <= i < head.len() implies !(#[trigger] head[i]).contains(sep) by {
            assert(!pieces[i].contains(sep));
        }
        law_joined_pieces_split(head, sep);
        lemma_split_one_more(join(head, seq![sep]), pieces.last(), sep);
        assert(head.push(pieces.last()) =~= pieces);
    }
}

/// What is printed of a segment: a name as it is, an index in brackets.
pub proof fn law_printed_segments(segment: PathSegment)
    ensures
        segment matches PathSegment::Name(name) ==> segment.display_text() == name@,
        segment matches PathSegment::Index(index) ==> segment.display_text() == "["@ + decimal(
            index as nat,
        ) + "]"@,
{
    reveal_strlit("[");
    reveal_strlit("]");
    if let PathSegment::Index(index) = segment {
        assert(segment.display_text() =~= "["@ + decimal(index as nat) + "]"@);
    }
}

/// A text without separators is one piece; two texts with a separator between them have the pieces of
/// both.
pub proof fn law_split_at_a_separator(left: Seq<char>, right: Seq<char>, sep: char)
    ensures
        split(left + seq![sep] + right, sep) == split(left, sep) + split(right, sep),
        !left.contains(sep) ==> split(left, sep) == seq![left],
    decreases right.len(),
{
    if !left.contains(sep) {
        lemma_split_single(left, sep);
    }
    let whole = left + seq![sep] + right;
    law_split_loses_nothing(right, sep);
    if right.len() == 0 {
        assert(whole.drop_last() =~= left);
        assert(split(whole, sep) =~= split(left, sep) + split(right, sep));
    } else {
        let shorter = right.drop_last();
        law_split_at_a_separator(left, shorter, sep);
        law_split_loses_nothing(shorter, sep);
        assert(whole.drop_last() =~= left + seq![sep] + shorter);
        assert(split(whole, sep) =~= split(left, sep) + split(right, sep));
    }
}

/// A string makes a name and a number an index, each as it is.
pub proof fn law_segments_of_values(name: String, index: usize)
    ensures
        ({
            let segment: PathSegment = vstd::std_specs::convert::FromSpec::<String>::from_spec(name);
            segment matches PathSegment::Name(n) && n == name
        }),
        ({
            let segment: PathSegment = vstd::std_specs::convert::FromSpec::<usize>::from_spec(index);
            segment matches PathSegment::Index(n) && n == index
        }),
{
}

} // verus!
