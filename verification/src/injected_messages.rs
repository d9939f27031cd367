//! `injected-messages`: which injected message templates a reseed resets.
use vstd::prelude::*;
use crate::cli::CliFailure;
use crate::text::{append_chars, append_str, chars_all, chars_of, join, join_chars, string_of, views};

verus! {

broadcast use vstd::string::group_string_axioms;

/// The arguments of `injected-messages`.
pub struct InjectedMessagesArgs {
    pub cmd: InjectedMessagesCmd,
}

/// The subcommands of `injected-messages`.
pub enum InjectedMessagesCmd {
    /// Reset one message, or every message, to the shipped default.
    Reseed(ReseedArgs),
}

/// The arguments of `injected-messages reseed`.
pub struct ReseedArgs {
    /// The message id to reset.
    pub id: Option<String>,
    /// Reset every known message.
    pub all: bool,
}

/// What a reseed resets.
pub enum ReseedTarget {
    All,
    Id(String),
}

pub open spec fn missing_target_message(known: Seq<Seq<char>>) -> Seq<char> {
    "Error: exactly one of --id <id> or --all is required. Valid ids: "@ + join(known, ", "@)
}

/// What a reseed resets: everything with `--all`, otherwise the id given;
/// with neither, exit code 1 with the list of `known_ids`.
pub fn execute(args: InjectedMessagesArgs, known_ids: &Vec<String>) -> (r: Result<
    ReseedTarget,
    CliFailure,
>)
    ensures
        match args.cmd {
            InjectedMessagesCmd::Reseed(a) => if a.all {
                r matches Ok(ReseedTarget::All)
            } else {
                match a.id {
                    Some(id) => r matches Ok(ReseedTarget::Id(x)) && x@ == id@,
                    None => r matches Err(f) && f.exit_code == 1 && f.message@
                        == missing_target_message(views(known_ids@)),
                }
            },
        },
{
    match args.cmd {
        InjectedMessagesCmd::Reseed(a) => {
            if a.all {
                return Ok(ReseedTarget::All);
            }
            match a.id {
                Some(id) => Ok(ReseedTarget::Id(id)),
                None => {
                    let ids = chars_all(known_ids);
                    let sep = chars_of(", ");
                    let joined = join_chars(&ids, &sep);
                    let mut m: Vec<char> = Vec::new();
                    append_str(
                        &mut m,
                        "Error: exactly one of --id <id> or --all is required. Valid ids: ",
                    );
                    append_chars(&mut m, &joined);
                    Err(CliFailure { exit_code: 1, message: string_of(&m) })
                },
            }
        },
    }
}

/// The confirmation after a reseed: the ids reset and the file.
pub fn reset_report(ids: &Vec<String>, file: &str) -> (out: String)
    ensures
        out@ == "Reset "@ + join(views(ids@), ", "@) + " in "@ + file@,
{
    let v = chars_all(ids);
    let sep = chars_of(", ");
    let joined = join_chars(&v, &sep);
    let mut m: Vec<char> = Vec::new();
    append_str(&mut m, "Reset ");
    append_chars(&mut m, &joined);
    append_str(&mut m, " in ");
    append_str(&mut m, file);
    string_of(&m)
}

} // verus!
