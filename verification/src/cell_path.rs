//! Paths of nested cells, written as cell names separated by `/`.
use vstd::prelude::*;
use std::collections::VecDeque;
use crate::names::CellName;
use crate::text::{chars_of, join_with, seq_join, string_from_chars, views_of};
use crate::validation::{
    dns_label_pattern, field_name, is_dns_label, is_pattern_error, is_required_error, opt_view, required,
    ValidationError,
};

verus! {

/// The pieces of `s` between occurrences of `sep`, as `str::split` gives
/// them: empty pieces included, and one (empty) piece for an empty text.
pub open spec fn split_on(s: Seq<char>, sep: char) -> Seq<Seq<char>>
    decreases s.len(),
{
    if s.len() == 0 {
        seq![Seq::<char>::empty()]
    } else {
        let pieces = split_on(s.drop_last(), sep);
        if s.last() == sep {
            pieces.push(Seq::<char>::empty())
        } else {
            pieces.update(pieces.len() - 1, pieces.last().push(s.last()))
        }
    }
}

pub proof fn lemma_split_nonempty(s: Seq<char>, sep: char)
    ensures
        split_on(s, sep).len() >= 1,
    decreases s.len(),
{
    if s.len() > 0 {
        lemma_split_nonempty(s.drop_last(), sep);
    }
}

/// Splits a text on a separator character.
pub fn split_char(s: &str, sep: char) -> (r: Vec<String>)
    ensures
        views_of(r@) == split_on(s@, sep),
{
    let v = chars_of(s);
    let mut pieces: Vec<String> = Vec::new();
    let mut current: Vec<char> = Vec::new();
    let mut i: usize = 0;
    while i < v.len()
        invariant
            v@ == s@,
            i <= v.len(),
            views_of(pieces@).push(current@) == split_on(v@.take(i as int), sep),
        decreases v.len() - i,
    {
        let c = v[i];
        let ghost before = v@.take(i as int);
        proof {
            assert(v@.take(i + 1).drop_last() =~= before);
            lemma_split_nonempty(before, sep);
        }
        if c == sep {
            let piece = string_from_chars(&current);
            pieces.push(piece);
            current = Vec::new();
            proof {
                assert(views_of(pieces@).push(current@) =~= split_on(before, sep).push(Seq::<char>::empty()));
            }
        } else {
            let ghost prev = current@;
            current.push(c);
            proof {
                let sp = split_on(before, sep);
                assert(views_of(pieces@).push(current@) =~= sp.update(sp.len() - 1, sp.last().push(c)));
            }
        }
        i = i + 1;
    }
    let last = string_from_chars(&current);
    pieces.push(last);
    proof {
        assert(v@.take(v.len() as int) =~= v@);
        assert(views_of(pieces@) =~= split_on(v@, sep));
    }
    pieces
}

/// The cell names of a `/`-separated path: the pieces that are valid cell
/// names (DNS labels), in order; other pieces are skipped.
pub open spec fn valid_names(pieces: Seq<Seq<char>>) -> Seq<Seq<char>> {
    pieces.filter(|p: Seq<char>| is_dns_label(p))
}

/// The view of a queue of cell names.
pub open spec fn names_view(q: Seq<CellName>) -> Seq<Seq<char>> {
    q.map_values(|n: CellName| n@)
}

/// The cell names of a `/`-separated path, skipping pieces that are not
/// valid cell names.
pub fn cell_names_of_path(path: &str) -> (r: VecDeque<CellName>)
    ensures
        names_view(r@) == valid_names(split_on(path@, '/')),
{
    let pieces = split_char(path, '/');
    let mut out: VecDeque<CellName> = VecDeque::new();
    let mut i: usize = 0;
    while i < pieces.len()
        invariant
            i <= pieces.len(),
            names_view(out@) == valid_names(views_of(pieces@.take(i as int))),
        decreases pieces.len() - i,
    {
        let ghost before = views_of(pieces@.take(i as int));
        let ghost after = views_of(pieces@.take(i + 1));
        proof {
            assert(after =~= before.push(pieces@[i as int]@));
            assert(after.drop_last() =~= before);
            reveal(Seq::filter);
        }
        if crate::validation::check_dns_label(pieces[i].as_str()) {
            out.push_back(CellName::new(String::from_str(pieces[i].as_str())));
            proof {
                assert(names_view(out@) =~= valid_names(before).push(pieces@[i as int]@));
            }
        }
        i = i + 1;
    }
    proof {
        assert(pieces@.take(pieces@.len() as int) =~= pieces@);
    }
    out
}

/// Whether `x` holds no `sep`.
pub open spec fn free_of(x: Seq<char>, sep: char) -> bool {
    forall|i: int| 0 <= i < x.len() ==> #[trigger] x[i] != sep
}

proof fn lemma_split_no_sep(x: Seq<char>, sep: char)
    requires
        free_of(x, sep),
    ensures
        split_on(x, sep) == seq![x],
    decreases x.len(),
{
    if x.len() > 0 {
        let rest = x.drop_last();
        assert(free_of(rest, sep)) by {
            assert forall|i: int| 0 <= i < rest.len() implies #[trigger] rest[i] != sep by {
                assert(rest[i] == x[i]);
            }
        }
        lemma_split_no_sep(rest, sep);
        assert(x[x.len() - 1] != sep);
        assert(rest.push(x.last()) =~= x);
        assert(seq![rest].update(0, rest.push(x.last())) =~= seq![x]);
        assert(split_on(x, sep) == seq![rest].update(0, rest.push(x.last())));
    } else {
        assert(x =~= Seq::<char>::empty());
    }
}

proof fn lemma_split_after_sep(x: Seq<char>, y: Seq<char>, sep: char)
    requires
        free_of(y, sep),
    ensures
        split_on(x + seq![sep] + y, sep) == split_on(x, sep).push(y),
    decreases y.len(),
{
    let z = x + seq![sep] + y;
    if y.len() == 0 {
        assert(z.drop_last() =~= x);
        assert(z.last() == sep);
        assert(y =~= Seq::<char>::empty());
    } else {
        let yr = y.drop_last();
        assert(free_of(yr, sep)) by {
            assert forall|i: int| 0 <= i < yr.len() implies #[trigger] yr[i] != sep by {
                assert(yr[i] == y[i]);
            }
        }
        lemma_split_after_sep(x, yr, sep);
        assert(z.drop_last() =~= x + seq![sep] + yr);
        assert(z.last() == y[y.len() - 1]);
        let t = split_on(x, sep).push(yr);
        assert(yr.push(y.last()) =~= y);
        assert(t.update(t.len() - 1, t.last().push(y.last())) =~= split_on(x, sep).push(y));
    }
}

/// Joining pieces that hold no separator and splitting the result on it
/// gives the pieces back.
pub proof fn lemma_join_then_split(p: Seq<Seq<char>>, sep: char)
    requires
        p.len() >= 1,
        forall|i: int| 0 <= i < p.len() ==> free_of(#[trigger] p[i], sep),
    ensures
        split_on(seq_join(p, seq![sep]), sep) == p,
    decreases p.len(),
{
    if p.len() == 1 {
        lemma_split_no_sep(p[0], sep);
        assert(seq![p[0]] =~= p);
    } else {
        let front = p.drop_last();
        assert forall|i: int| 0 <= i < front.len() implies free_of(#[trigger] front[i], sep) by {
            assert(front[i] == p[i]);
        }
        lemma_join_then_split(front, sep);
        assert(free_of(p[p.len() - 1], sep));
        lemma_split_after_sep(seq_join(front, seq![sep]), p.last(), sep);
        assert(front.push(p.last()) =~= p);
    }
}

/// The names a valid path text stands for: none for the empty text, the
/// text itself when it holds no `/`, else its pieces that are cell names.
pub open spec fn validated_names(s: Seq<char>) -> Seq<Seq<char>> {
    if s.len() == 0 {
        Seq::empty()
    } else if split_on(s, '/').len() == 1 {
        seq![s]
    } else {
        valid_names(split_on(s, '/'))
    }
}

proof fn lemma_join_push_last(p: Seq<Seq<char>>, sep: Seq<char>, c: char)
    requires
        p.len() >= 1,
    ensures
        seq_join(p.update(p.len() - 1, p.last().push(c)), sep) == seq_join(p, sep).push(c),
{
    let q = p.update(p.len() - 1, p.last().push(c));
    if p.len() >= 2 {
        assert(q.drop_last() =~= p.drop_last());
        assert(seq_join(q, sep) =~= seq_join(p, sep).push(c));
    }
}

proof fn lemma_split_then_join(s: Seq<char>, sep: char)
    ensures
        seq_join(split_on(s, sep), seq![sep]) == s,
    decreases s.len(),
{
    if s.len() > 0 {
        let rest = s.drop_last();
        lemma_split_then_join(rest, sep);
        lemma_split_nonempty(rest, sep);
        let pieces = split_on(rest, sep);
        if s.last() == sep {
            let q = pieces.push(Seq::<char>::empty());
            assert(q.drop_last() =~= pieces);
            assert(seq_join(q, seq![sep]) =~= s);
        } else {
            lemma_join_push_last(pieces, seq![sep], s.last());
            assert(rest.push(s.last()) =~= s);
        }
    }
}

proof fn lemma_filter_keeps_all(p: Seq<Seq<char>>)
    requires
        forall|i: int| 0 <= i < p.len() ==> is_dns_label(#[trigger] p[i]),
    ensures
        valid_names(p) == p,
    decreases p.len(),
{
    reveal(Seq::filter);
    if p.len() > 0 {
        lemma_filter_keeps_all(p.drop_last());
        assert(p.drop_last().push(p.last()) =~= p);
    }
}

/// Validating a path whose pieces are all cell names and writing it back
/// out gives the same text: the names [CellNamePath::validate] keeps,
/// joined with `/` as [CellNamePath::into_string] joins them, are the path.
pub proof fn law_path_round_trip(s: Seq<char>)
    requires
        s.len() == 0 || forall|i: int| 0 <= i < split_on(s, '/').len() ==> is_dns_label(#[trigger] split_on(s, '/')[i]),
    ensures
        seq_join(validated_names(s), seq!['/']) == s,
{
    if s.len() > 0 {
        lemma_split_then_join(s, '/');
        if split_on(s, '/').len() == 1 {
            assert(split_on(s, '/') =~= seq![split_on(s, '/')[0]]);
            assert(seq_join(seq![s], seq!['/']) == s);
        } else {
            lemma_filter_keeps_all(split_on(s, '/'));
        }
    }
}

/// A path to a nested cell: empty, a single cell, or several cells from
/// the outermost in.
#[derive(Debug)]
pub enum CellNamePath {
    Empty,
    CellName(CellName),
    Path(VecDeque<CellName>),
}

impl CellNamePath {
    /// The names on the path, outermost first.
    pub open spec fn names(&self) -> Seq<Seq<char>> {
        match self {
            CellNamePath::Empty => Seq::empty(),
            CellNamePath::CellName(n) => seq![n@],
            CellNamePath::Path(parts) => names_view(parts@),
        }
    }

    /// Parses a path. A missing path is refused; an empty one is
    /// [CellNamePath::Empty]; a path without `/` must be a valid cell name;
    /// a path with `/` keeps its valid cell names and skips the rest: a
    /// single name left is a [CellNamePath::CellName], none left is refused
    /// as not matching the cell name pattern. So a [CellNamePath::Path] has at
    /// least two names.
    pub fn validate(input: Option<String>, field: &str, parent: Option<&str>) -> (r: Result<Self, ValidationError>)
        ensures
            input is None ==> (r matches Err(e) && is_required_error(e, field@, opt_view(parent))),
            (input matches Some(s) && s@.len() == 0) ==> (r matches Ok(CellNamePath::Empty)),
            (input matches Some(s) && s@.len() > 0 && split_on(s@, '/').len() == 1) ==> {
                &&& is_dns_label(input->0@) ==> (r matches Ok(CellNamePath::CellName(n)) && n@ == input->0@)
                &&& !is_dns_label(input->0@) ==> (r matches Err(e) && is_pattern_error(e, field@, opt_view(parent)))
            },
            (input matches Some(s) && split_on(s@, '/').len() > 1) ==> {
                let names = valid_names(split_on(input->0@, '/'));
                &&& names.len() == 0 ==> (r matches Err(e) && is_pattern_error(e, field@, opt_view(parent)))
                &&& names.len() == 1 ==> (r matches Ok(CellNamePath::CellName(n)) && n@ == names[0])
                &&& names.len() > 1 ==> (r matches Ok(CellNamePath::Path(parts)) && names_view(parts@) == names)
            },
            r matches Ok(p) ==> (input matches Some(s) && p.names() == validated_names(s@)),
            r matches Ok(CellNamePath::Path(parts)) ==> parts@.len() >= 2,
    {
        let input = match required(input, field, parent) {
            Ok(v) => v,
            Err(e) => {
                return Err(e);
            },
        };
        if input.as_str().is_empty() {
            return Ok(CellNamePath::Empty);
        }
        let pieces = split_char(input.as_str(), '/');
        if pieces.len() == 1 {
            match CellName::validate_for_creation(Some(input), field, parent) {
                Ok(name) => Ok(CellNamePath::CellName(name)),
                Err(e) => Err(e),
            }
        } else {
            let mut names = cell_names_of_path(input.as_str());
            if names.len() == 0 {
                return Err(ValidationError::AllowRegexViolation {
                    field: field_name(field, parent),
                    pattern: dns_label_pattern(),
                });
            }
            if names.len() == 1 {
                let ghost all = names@;
                match names.pop_front() {
                    Some(n) => {
                        proof {
                            assert(names_view(all)[0] == n@);
                        }
                        return Ok(CellNamePath::CellName(n));
                    },
                    None => {
                        proof {
                            assert(false);
                        }
                        return Ok(CellNamePath::Empty);
                    },
                }
            }
            Ok(CellNamePath::Path(names))
        }
    }

    /// Splits off the outermost cell: `None` for an empty path; otherwise
    /// that cell and the rest of the path.
    pub fn into_child(self) -> (r: Option<(CellName, CellNamePath)>)
        requires
            self is Path ==> self.names().len() >= 2,
        ensures
            self is Empty ==> r is None,
            !(self is Empty) ==> (r matches Some((first, rest)) && first@ == self.names()[0]
                && rest.names() == self.names().drop_first()),
            (self is CellName) ==> (r matches Some((_, rest)) && rest is Empty),
            (self is Path && self.names().len() == 2) ==> (r matches Some((_, rest)) && rest is CellName),
            (self is Path && self.names().len() > 2) ==> (r matches Some((_, rest)) && rest is Path),
    {
        match self {
            CellNamePath::Empty => None,
            CellNamePath::CellName(cell_name) => Some((cell_name, CellNamePath::Empty)),
            CellNamePath::Path(mut parts) => {
                let ghost all = parts@;
                let first = match parts.pop_front() {
                    Some(f) => f,
                    None => {
                        proof {
                            assert(false);
                        }
                        return None;
                    },
                };
                proof {
                    assert(names_view(parts@) =~= names_view(all).drop_first());
                }
                if parts.len() == 1 {
                    let ghost rest = parts@;
                    let second = match parts.pop_front() {
                        Some(s) => s,
                        None => {
                            proof {
                                assert(false);
                            }
                            return None;
                        },
                    };
                    proof {
                        assert(seq![second@] =~= names_view(rest));
                    }
                    Some((first, CellNamePath::CellName(second)))
                } else {
                    Some((first, CellNamePath::Path(parts)))
                }
            },
        }
    }

    /// The path written out: the names joined with `/`.
    pub fn into_string(self) -> (r: String)
        ensures
            r@ == seq_join(self.names(), seq!['/']),
    {
        match self {
            CellNamePath::Empty => String::new(),
            CellNamePath::CellName(cell_name) => cell_name.into_inner(),
            CellNamePath::Path(parts) => {
                let mut texts: Vec<String> = Vec::new();
                let mut i: usize = 0;
                while i < parts.len()
                    invariant
                        i <= parts@.len(),
                        texts.len() == i,
                        forall|k: int| 0 <= k < i ==> (#[trigger] texts@[k])@ == parts@[k]@,
                    decreases parts@.len() - i,
                {
                    texts.push(String::from_str(parts[i].as_str()));
                    i = i + 1;
                }
                let mut sep = String::new();
                crate::text::string_push(&mut sep, '/');
                proof {
                    assert(views_of(texts@) =~= names_view(parts@));
                }
                join_with(&texts, sep.as_str())
            },
        }
    }
}

} // verus!
