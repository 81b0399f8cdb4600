//! The command catalog: which argument vector runs a logical operation with
//! a given package manager, and how a typed command line is cut into
//! arguments.

use crate::text::{from_chars, lemma_texts_push, owned, same_text, texts, to_chars};
use vstd::prelude::*;

verus! {

/// The package manager the system offers, by the name of its command.
#[derive(Debug, Clone)]
pub struct PackageManager {
    pub command: String,
}

/// A logical operation on the system's packages.
#[derive(Debug, Clone, Copy, PartialEq, Eq, Structural)]
pub enum Operation {
    /// Upgrade everything.
    Update,
    /// Install the target packages.
    Install,
    /// Remove the target packages with their orphaned dependencies.
    Remove,
    /// Run the given words as a command of their own.
    Custom,
}

/// Why the catalog has no command to offer.
#[derive(Debug, Clone, Copy, PartialEq, Eq, Structural)]
pub enum CatalogError {
    /// The operation's name is none the catalog knows.
    UnknownOperation,
    /// A custom command without a single word.
    EmptyCommand,
    /// None of the supported package managers is installed.
    NoManager,
}

pub open spec fn operation_named(name: Seq<char>) -> Option<Operation> {
    if name == "update"@ {
        Some(Operation::Update)
    } else if name == "install"@ {
        Some(Operation::Install)
    } else if name == "remove"@ {
        Some(Operation::Remove)
    } else if name == "custom"@ {
        Some(Operation::Custom)
    } else {
        None
    }
}

/// The flags that make the package manager carry out an operation without
/// asking.
pub open spec fn flags_of(op: Operation) -> Seq<Seq<char>> {
    match op {
        Operation::Update => seq!["-Syu"@, "--noconfirm"@],
        Operation::Install => seq!["-S"@, "--noconfirm"@],
        Operation::Remove => seq!["-Rns"@, "--noconfirm"@],
        Operation::Custom => Seq::empty(),
    }
}

/// Whether a package manager must be started through the privilege
/// elevation wrapper: only plain `pacman` must, the AUR helpers elevate
/// themselves.
pub open spec fn needs_privilege(command: Seq<char>) -> bool {
    command == "pacman"@
}

/// The argument vector for an operation. For a custom command `targets` are
/// its words and are the vector; otherwise the manager's command, after the
/// elevation prefix where it needs one, then the flags, then the targets.
pub open spec fn argv_of(op: Operation, command: Seq<char>, targets: Seq<Seq<char>>) -> Seq<
    Seq<char>,
> {
    if op == Operation::Custom {
        targets
    } else if needs_privilege(command) {
        seq!["sudo"@, "pacman"@] + flags_of(op) + targets
    } else {
        seq![command] + flags_of(op) + targets
    }
}

/// The notice that stands in for the error output of a cancelled run.
pub open spec fn cancel_notice(op: Operation) -> Seq<char> {
    match op {
        Operation::Update => "更新已取消"@,
        Operation::Install => "安装已取消"@,
        Operation::Remove => "卸载已取消"@,
        Operation::Custom => "命令已取消"@,
    }
}

impl Operation {
    /// The operation of that name, if the catalog knows it.
    pub fn from_name(name: &str) -> (r: Option<Operation>)
        ensures
            r == operation_named(name@),
    {
        if same_text(name, "update") {
            Some(Operation::Update)
        } else if same_text(name, "install") {
            Some(Operation::Install)
        } else if same_text(name, "remove") {
            Some(Operation::Remove)
        } else if same_text(name, "custom") {
            Some(Operation::Custom)
        } else {
            None
        }
    }

    /// The notice shown when a run of this operation was cancelled.
    pub fn cancel_message(self) -> (s: String)
        ensures
            s@ == cancel_notice(self),
    {
        match self {
            Operation::Update => owned("更新已取消"),
            Operation::Install => owned("安装已取消"),
            Operation::Remove => owned("卸载已取消"),
            Operation::Custom => owned("命令已取消"),
        }
    }
}

pub(crate) fn push_word(out: &mut Vec<String>, word: &str)
    ensures
        texts(final(out)@) == texts(old(out)@).push(word@),
{
    let w = owned(word);
    proof {
        lemma_texts_push(out@, w);
    }
    out.push(w);
}

pub(crate) fn push_words(out: &mut Vec<String>, words: &Vec<String>)
    ensures
        texts(final(out)@) == texts(old(out)@) + texts(words@),
{
    let mut i: usize = 0;
    assert(texts(out@) + texts(words@).take(0) =~= texts(out@));
    while i < words.len()
        invariant
            i <= words.len(),
            texts(out@) == texts(old(out)@) + texts(words@).take(i as int),
        decreases words.len() - i,
    {
        let ghost before = texts(out@);
        push_word(out, words[i].as_str());
        assert(before.push(words@[i as int]@) =~= texts(old(out)@) + texts(words@).take(i + 1));
        i += 1;
    }
    assert(texts(words@).take(words.len() as int) =~= texts(words@));
}

impl PackageManager {
    /// Chooses the package manager among those found installed: `paru`
    /// before `yay` before `pacman`.
    pub fn detect(has_paru: bool, has_yay: bool, has_pacman: bool) -> (r: Result<
        PackageManager,
        CatalogError,
    >)
        ensures
            match r {
                Ok(pm) => {
                    &&& has_paru ==> pm.command@ == "paru"@
                    &&& !has_paru && has_yay ==> pm.command@ == "yay"@
                    &&& !has_paru && !has_yay ==> has_pacman && pm.command@ == "pacman"@
                },
                Err(e) => !has_paru && !has_yay && !has_pacman && e == CatalogError::NoManager,
            },
    {
        if has_paru {
            Ok(PackageManager { command: owned("paru") })
        } else if has_yay {
            Ok(PackageManager { command: owned("yay") })
        } else if has_pacman {
            Ok(PackageManager { command: owned("pacman") })
        } else {
            Err(CatalogError::NoManager)
        }
    }

    pub fn name(&self) -> (s: &str)
        ensures
            s@ == self.command@,
    {
        self.command.as_str()
    }

    /// Whether commands of this manager are started through `sudo`.
    pub fn requires_privilege(&self) -> (r: bool)
        ensures
            r == needs_privilege(self.command@),
    {
        same_text(self.command.as_str(), "pacman")
    }

    /// The argument vector that carries out `op` on `targets`.
    pub fn argv(&self, op: Operation, targets: &Vec<String>) -> (r: Result<
        Vec<String>,
        CatalogError,
    >)
        ensures
            match r {
                Ok(v) => !(op == Operation::Custom && targets@.len() == 0) && texts(v@) == argv_of(
                    op,
                    self.command@,
                    texts(targets@),
                ),
                Err(e) => op == Operation::Custom && targets@.len() == 0 && e
                    == CatalogError::EmptyCommand,
            },
    {
        let mut out: Vec<String> = Vec::new();
        assert(texts(out@) =~= Seq::<Seq<char>>::empty());
        match op {
            Operation::Custom => {
                if targets.len() == 0 {
                    return Err(CatalogError::EmptyCommand);
                }
                push_words(&mut out, targets);
                assert(texts(out@) =~= texts(targets@));
                return Ok(out);
            },
            _ => {},
        }
        if self.requires_privilege() {
            push_word(&mut out, "sudo");
            push_word(&mut out, "pacman");
        } else {
            push_word(&mut out, self.command.as_str());
        }
        let ghost head = texts(out@);
        match op {
            Operation::Update => {
                push_word(&mut out, "-Syu");
            },
            Operation::Install => {
                push_word(&mut out, "-S");
            },
            _ => {
                push_word(&mut out, "-Rns");
            },
        }
        push_word(&mut out, "--noconfirm");
        assert(texts(out@) =~= head + flags_of(op));
        push_words(&mut out, targets);
        Ok(out)
    }
}

/// The argument vector for the operation called `operation`, or why there is
/// none.
pub fn command_argv(operation: &str, pm: &PackageManager, targets: &Vec<String>) -> (r: Result<
    Vec<String>,
    CatalogError,
>)
    ensures
        match r {
            Ok(v) => match operation_named(operation@) {
                Some(op) => !(op == Operation::Custom && targets@.len() == 0) && texts(v@)
                    == argv_of(op, pm.command@, texts(targets@)),
                None => false,
            },
            Err(e) => match operation_named(operation@) {
                Some(op) => op == Operation::Custom && targets@.len() == 0 && e
                    == CatalogError::EmptyCommand,
                None => e == CatalogError::UnknownOperation,
            },
        },
{
    match Operation::from_name(operation) {
        Some(op) => pm.argv(op, targets),
        None => Err(CatalogError::UnknownOperation),
    }
}

// ---------------------------------------------------------------------------
// Command lines
// ---------------------------------------------------------------------------

/// The splitter while it reads a command line.
pub struct SplitState {
    /// The words completed so far.
    pub parts: Seq<Seq<char>>,
    /// The word in progress.
    pub current: Seq<char>,
    pub in_single: bool,
    pub in_double: bool,
}

/// The splitter after one more character: a quote outside the other kind of
/// quotes opens or closes its kind and is dropped; a space or tab outside
/// quotes ends the word in progress; everything else joins it.
pub open spec fn split_step(st: SplitState, c: char) -> SplitState {
    if c == '\'' && !st.in_double {
        SplitState { in_single: !st.in_single, ..st }
    } else if c == '"' && !st.in_single {
        SplitState { in_double: !st.in_double, ..st }
    } else if (c == ' ' || c == '\t') && !st.in_single && !st.in_double {
        if st.current.len() > 0 {
            SplitState { parts: st.parts.push(st.current), current: Seq::empty(), ..st }
        } else {
            st
        }
    } else {
        SplitState { current: st.current.push(c), ..st }
    }
}

pub open spec fn split_scan(s: Seq<char>) -> SplitState
    decreases s.len(),
{
    if s.len() == 0 {
        SplitState {
            parts: Seq::empty(),
            current: Seq::empty(),
            in_single: false,
            in_double: false,
        }
    } else {
        split_step(split_scan(s.drop_last()), s.last())
    }
}

/// The words of a command line: cut at spaces and tabs outside quotes, the
/// quotes themselves removed.
pub open spec fn command_words(cmd: Seq<char>) -> Seq<Seq<char>> {
    let st = split_scan(cmd);
    if st.current.len() > 0 {
        st.parts.push(st.current)
    } else {
        st.parts
    }
}

/// Cuts a typed command line into its arguments. Single and double quotes
/// keep spaces inside one argument.
pub fn parse_command(cmd: &str) -> (parts: Vec<String>)
    ensures
        texts(parts@) == command_words(cmd@),
{
    let s = to_chars(cmd);
    let mut parts: Vec<String> = Vec::new();
    let mut current: Vec<char> = Vec::new();
    let mut in_single = false;
    let mut in_double = false;
    let mut i: usize = 0;
    proof {
        assert(texts(parts@) =~= Seq::<Seq<char>>::empty());
        assert(s@.take(0) =~= Seq::<char>::empty());
    }
    while i < s.len()
        invariant
            i <= s.len(),
            s@ == cmd@,
            split_scan(s@.take(i as int)) == (SplitState {
                parts: texts(parts@),
                current: current@,
                in_single,
                in_double,
            }),
        decreases s.len() - i,
    {
        let c = s[i];
        proof {
            let next = s@.take(i + 1);
            assert(next.drop_last() =~= s@.take(i as int));
            assert(next.last() == c);
        }
        if c == '\'' && !in_double {
            in_single = !in_single;
        } else if c == '"' && !in_single {
            in_double = !in_double;
        } else if (c == ' ' || c == '\t') && !in_single && !in_double {
            if current.len() > 0 {
                let w = from_chars(current.as_slice());
                proof {
                    lemma_texts_push(parts@, w);
                }
                parts.push(w);
                current = Vec::new();
            }
        } else {
            current.push(c);
        }
        i += 1;
    }
    assert(s@.take(s.len() as int) =~= s@);
    if current.len() > 0 {
        let w = from_chars(current.as_slice());
        proof {
            lemma_texts_push(parts@, w);
        }
        parts.push(w);
    }
    parts
}

} // verus!
