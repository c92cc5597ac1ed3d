//! Command lines given as text.
use vstd::prelude::*;
use crate::cell_path::{split_char, split_on};
use crate::executables::CommandSpec;
use crate::text::{chars_of, str_eq, views_of};
use crate::validation::{field_name, is_required_error, opt_view, required_not_empty, spec_field_name, ValidationError};

verus! {

/// The arguments of a space-separated command line: the pieces after the
/// first, leaving out those equal to the program.
pub open spec fn command_args(pieces: Seq<Seq<char>>) -> Seq<Seq<char>> {
    pieces.drop_first().filter(|p: Seq<char>| p != pieces[0])
}

/// Turns a shell-like string into a command: the text before the first
/// space is the program and the other space-separated pieces, except
/// those equal to the program, its arguments. Splitting always yields a
/// program, so this never fails.
pub fn command_from_string(cmd: &str) -> (r: Result<CommandSpec, ValidationError>)
    ensures
        r matches Ok(c) && c.program@ == split_on(cmd@, ' ')[0]
            && views_of(c.args@) == command_args(split_on(cmd@, ' ')),
{
    let pieces = split_char(cmd, ' ');
    if pieces.len() == 0 {
        proof {
            assert(views_of(pieces@).len() == 0);
            crate::cell_path::lemma_split_nonempty(cmd@, ' ');
        }
        return Err(ValidationError::Invalid { field: String::from_str(cmd) });
    }
    let base = String::from_str(pieces[0].as_str());
    let mut args: Vec<String> = Vec::new();
    let mut i: usize = 1;
    let ghost all = views_of(pieces@);
    while i < pieces.len()
        invariant
            1 <= i <= pieces.len(),
            all == views_of(pieces@),
            base@ == all[0],
            views_of(args@) == all.take(i as int).drop_first().filter(|p: Seq<char>| p != all[0]),
        decreases pieces.len() - i,
    {
        let ghost before = all.take(i as int).drop_first();
        proof {
            assert(all.take(i + 1).drop_first() =~= before.push(all[i as int]));
            assert(all.take(i + 1).drop_first().drop_last() =~= before);
            reveal(Seq::filter);
        }
        if !str_eq(pieces[i].as_str(), base.as_str()) {
            let ghost prev = args@;
            args.push(String::from_str(pieces[i].as_str()));
            proof {
                assert(views_of(args@) =~= views_of(prev).push(all[i as int]));
            }
        }
        i = i + 1;
    }
    proof {
        assert(all.take(pieces@.len() as int) =~= all);
    }
    Ok(CommandSpec { program: base, args })
}

/// Whether a text holds a NUL character (which a C string cannot).
pub open spec fn has_nul(s: Seq<char>) -> bool {
    exists|i: int| 0 <= i < s.len() && s[i] == '\0'
}

/// A command for a process: present, not empty, and without NUL
/// characters (it is handed to the system as a C string).
pub fn validate_command(command: String, field: &str, parent: Option<&str>) -> (r: Result<String, ValidationError>)
    ensures
        command@.len() == 0 ==> (r matches Err(e) && is_required_error(e, field@, opt_view(parent))),
        command@.len() > 0 && has_nul(command@) ==> (r matches Err(ValidationError::Invalid { field: f })
            && f@ == spec_field_name(field@, opt_view(parent))),
        command@.len() > 0 && !has_nul(command@) ==> (r matches Ok(c) && c@ == command@),
{
    let ghost given = command@;
    let cmd = required_not_empty(Some(command), field, parent)?;
    let v = chars_of(cmd.as_str());
    let mut i: usize = 0;
    while i < v.len()
        invariant
            v@ == cmd@,
            cmd@ == given,
            given == command@,
            given.len() > 0,
            i <= v.len(),
            forall|k: int| 0 <= k < i ==> v@[k] != '\0',
        decreases v.len() - i,
    {
        if v[i] == '\0' {
            proof {
                assert(given[i as int] == '\0');
            }
            return Err(ValidationError::Invalid { field: field_name(field, parent) });
        }
        i = i + 1;
    }
    Ok(cmd)
}

/// A command line for a process: present and not empty, then split on
/// spaces into program and arguments as [command_from_string] does.
pub fn validate_command_line(command: String, field: &str, parent: Option<&str>) -> (r: Result<CommandSpec, ValidationError>)
    ensures
        command@.len() == 0 ==> (r matches Err(e) && is_required_error(e, field@, opt_view(parent))),
        command@.len() > 0 ==> (r matches Ok(c) && c.program@ == split_on(command@, ' ')[0]
            && views_of(c.args@) == command_args(split_on(command@, ' '))),
{
    let cmd = match required_not_empty(Some(command), field, parent) {
        Ok(c) => c,
        Err(e) => {
            return Err(e);
        },
    };
    match command_from_string(cmd.as_str()) {
        Ok(c) => Ok(c),
        Err(_) => Err(ValidationError::Invalid { field: field_name(field, parent) }),
    }
}

/// The arguments of a command line never repeat its program, and every
/// piece after the program that differs from it is kept.
pub proof fn law_args_exclude_program(pieces: Seq<Seq<char>>, i: int, j: int)
    requires
        pieces.len() > 0,
    ensures
        0 <= i < command_args(pieces).len() ==> command_args(pieces)[i] != pieces[0],
        1 <= j < pieces.len() && pieces[j] != pieces[0] ==> command_args(pieces).contains(pieces[j]),
{
    let pred = |p: Seq<char>| p != pieces[0];
    if 0 <= i < command_args(pieces).len() {
        pieces.drop_first().lemma_filter_pred(pred, i);
    }
    if 1 <= j < pieces.len() && pieces[j] != pieces[0] {
        assert(pieces.drop_first()[j - 1] == pieces[j]);
        pieces.drop_first().lemma_filter_contains(pred, j - 1);
    }
}

} // verus!
