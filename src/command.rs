use vstd::prelude::*;
use crate::config::Profile;
use crate::letter::names;

verus! {

pub open spec fn is_work_flag(a: Seq<char>) -> bool {
    a == "-w"@ || a == "--work"@
}

pub open spec fn is_private_flag(a: Seq<char>) -> bool {
    a == "-p"@ || a == "--private"@
}

/// The profile chosen by the arguments of `new`: work when any of them is a work flag,
/// else private.
pub open spec fn profile_of(args: Seq<Seq<char>>) -> Profile {
    if exists|i: int| 0 <= i < args.len() && is_work_flag(#[trigger] args[i]) {
        Profile::Work
    } else {
        Profile::Private
    }
}

/// The arguments of `new` that are not profile flags, in order.
pub open spec fn subject_words(args: Seq<Seq<char>>) -> Seq<Seq<char>>
    decreases args.len(),
{
    if args.len() == 0 {
        Seq::empty()
    } else if is_work_flag(args.last()) || is_private_flag(args.last()) {
        subject_words(args.drop_last())
    } else {
        subject_words(args.drop_last()).push(args.last())
    }
}

/// Words joined with single spaces.
pub open spec fn join_words(words: Seq<Seq<char>>) -> Seq<char>
    decreases words.len(),
{
    if words.len() == 0 {
        Seq::empty()
    } else if words.len() == 1 {
        words[0]
    } else {
        join_words(words.drop_last()) + " "@ + words.last()
    }
}

/// `a` is the literal `lit`.
fn is_word(a: &String, lit: &str) -> (r: bool)
    ensures
        r == (a@ == lit@),
{
    let w = String::from_str(lit);
    *a == w
}

/// Splits the arguments of `new` into the chosen profile, work when a work flag is among
/// them and private otherwise, and the subject: the non-flag words joined with single spaces.
pub fn parse_new_args(args: &[String]) -> (r: (Profile, String))
    ensures
        r.0 == profile_of(names(args@)),
        r.1@ == join_words(subject_words(names(args@))),
{
    let mut profile = Profile::Private;
    let mut parts: Vec<String> = Vec::new();
    let mut i: usize = 0;
    while i < args.len()
        invariant
            i <= args@.len(),
            profile == profile_of(names(args@.subrange(0, i as int))),
            names(parts@) == subject_words(names(args@.subrange(0, i as int))),
        decreases args@.len() - i,
    {
        let a = &args[i];
        let ghost before = names(args@.subrange(0, i as int));
        let ghost after = names(args@.subrange(0, i + 1));
        assert(after.drop_last() =~= before);
        assert(after.last() == a@);
        if is_word(a, "-w") || is_word(a, "--work") {
            profile = Profile::Work;
            assert(is_work_flag(after[i as int]));
        } else if is_word(a, "-p") || is_word(a, "--private") {
            assert(forall|j: int| 0 <= j < i ==> after[j] == before[j]);
        } else {
            assert(forall|j: int| 0 <= j < i ==> after[j] == before[j]);
            parts.push(a.clone());
            assert(names(parts@) =~= subject_words(after));
        }
        i = i + 1;
    }
    assert(args@.subrange(0, args@.len() as int) =~= args@);
    let subject = join(&parts);
    (profile, subject)
}

/// The words of `parts` joined with single spaces.
pub fn join(parts: &Vec<String>) -> (r: String)
    ensures
        r@ == join_words(names(parts@)),
{
    let mut r = String::new();
    let mut i: usize = 0;
    while i < parts.len()
        invariant
            i <= parts@.len(),
            r@ == join_words(names(parts@.subrange(0, i as int))),
        decreases parts@.len() - i,
    {
        let ghost before = names(parts@.subrange(0, i as int));
        let ghost after = names(parts@.subrange(0, i + 1));
        assert(after.drop_last() =~= before);
        if i > 0 {
            r.append(" ");
        }
        r.append(parts[i].as_str());
        if i == 0 {
            assert(r@ =~= join_words(after));
        }
        i = i + 1;
    }
    assert(parts@.subrange(0, parts@.len() as int) =~= parts@);
    r
}

/// What the command line asks for.
#[derive(Debug)]
pub enum Command {
    /// Show the usage text.
    Help,
    /// Show the program's version.
    Version,
    /// Create a letter on `subject` from `profile`.
    New { profile: Profile, subject: String },
    /// `new` without a subject: a usage error.
    NewWithoutArgs,
    /// Compile every letter that has no compiled counterpart.
    Build,
    /// List the letters.
    List,
    /// Create the template and configuration files.
    Init,
    /// An unknown command word.
    Unknown(String),
}

pub open spec fn is_help_word(a: Seq<char>) -> bool {
    a == "help"@ || a == "--help"@ || a == "-h"@
}

pub open spec fn is_version_word(a: Seq<char>) -> bool {
    a == "--version"@ || a == "-V"@
}

/// The command that the command line `args` (program name first) asks for.
pub open spec fn command_matches(args: Seq<Seq<char>>, c: Command) -> bool {
    if args.len() < 2 {
        c is Help
    } else if args[1] == "new"@ {
        if args.len() < 3 {
            c is NewWithoutArgs
        } else {
            let rest = args.subrange(2, args.len() as int);
            c matches Command::New { profile, subject } && profile == profile_of(rest) && subject@
                == join_words(subject_words(rest))
        }
    } else if args[1] == "build"@ {
        c is Build
    } else if args[1] == "list"@ {
        c is List
    } else if args[1] == "init"@ {
        c is Init
    } else if is_help_word(args[1]) {
        c is Help
    } else if is_version_word(args[1]) {
        c is Version
    } else {
        c matches Command::Unknown(w) && w@ == args[1]
    }
}

/// Reads the command line `args`, the program's name first.
pub fn parse_command(args: &Vec<String>) -> (r: Command)
    ensures
        command_matches(names(args@), r),
{
    if args.len() < 2 {
        return Command::Help;
    }
    let w = &args[1];
    if is_word(w, "new") {
        if args.len() < 3 {
            return Command::NewWithoutArgs;
        }
        let rest = slice_from(args, 2);
        assert(names(rest@) =~= names(args@).subrange(2, args@.len() as int));
        let (profile, subject) = parse_new_args(rest);
        Command::New { profile, subject }
    } else if is_word(w, "build") {
        Command::Build
    } else if is_word(w, "list") {
        Command::List
    } else if is_word(w, "init") {
        Command::Init
    } else if is_word(w, "help") || is_word(w, "--help") || is_word(w, "-h") {
        Command::Help
    } else if is_word(w, "--version") || is_word(w, "-V") {
        Command::Version
    } else {
        Command::Unknown(w.clone())
    }
}

fn slice_from(v: &Vec<String>, start: usize) -> (r: &[String])
    requires
        start <= v@.len(),
    ensures
        r@ == v@.subrange(start as int, v@.len() as int),
{
    v.as_slice().split_at(start).1
}

} // verus!
