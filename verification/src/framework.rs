use vstd::prelude::*;

use crate::error::{AuroraError, AuroraResult};
use crate::text::{
    chars_of, decimal, decimal_value, is_digit, join_spaced, lemma_decimal_reads_back, push_decimal, push_joined, push_str, split_words,
    string_from_chars, string_views, words,
};

verus! {

/// What the framework knows of a command: its name, and the ID that
/// Discord gave it once it was registered.
#[derive(Clone, Debug, PartialEq, Eq)]
pub struct CommandInfo {
    pub name: String,
    pub id: Option<u64>,
}

/// A single command and what handles it.
pub struct Command<H> {
    /// The command's name and ID.
    pub command: CommandInfo,
    /// Whatever runs the command.
    pub handler: H,
}

/// A command as Discord reports it after registration.
#[derive(Clone, Debug, PartialEq, Eq)]
pub struct RegisteredCommand {
    pub name: String,
    pub id: Option<u64>,
}

/// The top-level commands of an application.
pub struct CommandFramework<H> {
    /// The top-level commands, in the order they were given.
    pub commands: Vec<Command<H>>,
}

/// The names of `cmds`, in order.
pub open spec fn command_names<H>(cmds: Seq<Command<H>>) -> Seq<Seq<char>> {
    cmds.map_values(|c: Command<H>| c.command.name@)
}

/// The index of the first of `names` equal to `name`.
pub open spec fn find_first(names: Seq<Seq<char>>, name: Seq<char>) -> Option<int>
    decreases names.len(),
{
    if names.len() == 0 {
        None
    } else {
        match find_first(names.drop_last(), name) {
            Some(i) => Some(i),
            None => if names.last() == name {
                Some(names.len() - 1)
            } else {
                None
            },
        }
    }
}

/// The first word of `s`, if it has one.
pub open spec fn first_word(s: Seq<char>) -> Option<Seq<char>> {
    if words(s).len() > 0 {
        Some(words(s)[0])
    } else {
        None
    }
}

/// The index of the command that a command name refers to: the first
/// command named like the name's first word.
pub open spec fn command_index<H>(cmds: Seq<Command<H>>, command_name: Seq<char>) -> Option<int> {
    match first_word(command_name) {
        Some(w) => find_first(command_names(cmds), w),
        None => None,
    }
}

/// `</parent:id>`, or `</parent child ...:id>` where there are child names.
pub open spec fn mention_text(parent: Seq<char>, children: Seq<Seq<char>>, id: u64) -> Seq<char> {
    let head = if children.len() == 0 {
        parent
    } else {
        parent + seq![' '] + join_spaced(children)
    };
    seq!['<', '/'] + head + seq![':'] + decimal(id as nat) + seq!['>']
}

/// What mentioning `command_name` gives: the mention, or why there is none.
pub open spec fn mention_outcome<H>(cmds: Seq<Command<H>>, command_name: Seq<char>) -> Result<
    Seq<char>,
    Seq<char>,
> {
    let ws = words(command_name);
    if ws.len() == 0 {
        Err("command name empty"@)
    } else {
        match find_first(command_names(cmds), ws[0]) {
            None => Err("command not found"@),
            Some(i) => match cmds[i].command.id {
                None => Err("command ID not found"@),
                Some(id) => Ok(mention_text(ws[0], ws.drop_first(), id)),
            },
        }
    }
}

pub proof fn lemma_find_first_bounds(names: Seq<Seq<char>>, name: Seq<char>)
    ensures
        find_first(names, name) matches Some(i) ==> 0 <= i < names.len() && names[i] == name
            && forall|j: int| 0 <= j < i ==> names[j] != name,
        find_first(names, name) is None ==> forall|j: int| 0 <= j < names.len() ==> names[j]
            != name,
    decreases names.len(),
{
    if names.len() > 0 {
        let init = names.drop_last();
        lemma_find_first_bounds(init, name);
        assert forall|j: int| 0 <= j < init.len() implies init[j] == names[j] by {}
    }
}

proof fn lemma_find_first_extend(names: Seq<Seq<char>>, name: Seq<char>, k: int)
    requires
        0 <= k <= names.len(),
        find_first(names.take(k), name) is Some,
    ensures
        find_first(names, name) == find_first(names.take(k), name),
    decreases names.len() - k,
{
    if k < names.len() {
        assert(names.take(k + 1).drop_last() =~= names.take(k));
        lemma_find_first_extend(names, name, k + 1);
    } else {
        assert(names.take(k) =~= names);
    }
}

/// `cmds` after Discord reported one registered command: the first command
/// of that name takes the reported ID; nothing else changes.
pub open spec fn register_one<H>(cmds: Seq<Command<H>>, reg: RegisteredCommand) -> Seq<Command<H>> {
    match find_first(command_names(cmds), reg.name@) {
        Some(i) => cmds.update(
            i,
            Command {
                command: CommandInfo { name: cmds[i].command.name, id: reg.id },
                handler: cmds[i].handler,
            },
        ),
        None => cmds,
    }
}

/// `cmds` after Discord reported the registered commands `regs`, in order.
pub open spec fn register_all<H>(cmds: Seq<Command<H>>, regs: Seq<RegisteredCommand>) -> Seq<
    Command<H>,
>
    decreases regs.len(),
{
    if regs.len() == 0 {
        cmds
    } else {
        register_one(register_all(cmds, regs.drop_last()), regs.last())
    }
}

impl<H> CommandFramework<H> {
    /// Records the IDs that Discord gave the registered commands: for each
    /// registered command, in order, the first local command of the same
    /// name takes its ID.
    pub fn assign_command_ids(&mut self, registered: &Vec<RegisteredCommand>)
        ensures
            final(self).commands@ == register_all(old(self).commands@, registered@),
    {
        let mut k: usize = 0;
        while k < registered.len()
            invariant
                k <= registered.len(),
                self.commands@ == register_all(old(self).commands@, registered@.take(k as int)),
            decreases registered.len() - k,
        {
            assert(registered@.take(k + 1).drop_last() =~= registered@.take(k as int));
            let reg = &registered[k];
            match self.position(&reg.name) {
                Some(i) => {
                    self.commands[i].command.id = reg.id;
                },
                None => {},
            }
            k = k + 1;
        }
        assert(registered@.take(k as int) =~= registered@);
    }

    /// Index of the first command named `name`.
    fn position(&self, name: &String) -> (r: Option<usize>)
        ensures
            r matches Some(i) ==> i < self.commands.len() && find_first(
                command_names(self.commands@),
                name@,
            ) == Some(i as int),
            r is None ==> find_first(command_names(self.commands@), name@) is None,
    {
        let ghost names = command_names(self.commands@);
        let mut i: usize = 0;
        while i < self.commands.len()
            invariant
                i <= self.commands.len(),
                names == command_names(self.commands@),
                find_first(names.take(i as int), name@) is None,
            decreases self.commands.len() - i,
        {
            assert(names.take(i + 1).drop_last() =~= names.take(i as int));
            if self.commands[i].command.name == *name {
                proof {
                    assert(names.take(i + 1).last() == names[i as int]);
                    lemma_find_first_extend(names, name@, i + 1);
                }
                return Some(i);
            }
            i = i + 1;
        }
        assert(names.take(i as int) =~= names);
        None
    }

    /// The command that `command_name` refers to: the first command named
    /// like its first word. Only that word is looked at.
    pub fn get_command(&self, command_name: &str) -> (r: Option<&Command<H>>)
        ensures
            r == match command_index(self.commands@, command_name@) {
                Some(i) => Some(&self.commands@[i]),
                None => None,
            },
    {
        let chars = chars_of(command_name);
        let segments = split_words(&chars);
        if segments.len() == 0 {
            return None;
        }
        assert(segments@[0]@ == words(command_name@)[0]);
        match self.position(&segments[0]) {
            Some(i) => Some(&self.commands[i]),
            None => None,
        }
    }

    /// Mention a command, given its name.
    ///
    /// Only the parent command name is checked to exist; the words after it
    /// are copied into the mention as they are.
    pub fn mention_command(&self, command_name: &str) -> (r: AuroraResult<String>)
        ensures
            match mention_outcome(self.commands@, command_name@) {
                Ok(text) => r matches Ok(s) && s@ == text,
                Err(reason) => r matches Err(AuroraError::CommandMentionError(n, m)) && n@
                    == command_name@ && m@ == reason,
            },
    {
        let chars = chars_of(command_name);
        let segments = split_words(&chars);
        let ghost ws = words(command_name@);
        if segments.len() == 0 {
            return Err(
                AuroraError::CommandMentionError(
                    command_name.to_owned(),
                    "command name empty".to_owned(),
                ),
            );
        }
        assert(segments@[0]@ == ws[0]);
        let index = match self.position(&segments[0]) {
            Some(i) => i,
            None => {
                return Err(
                    AuroraError::CommandMentionError(
                        command_name.to_owned(),
                        "command not found".to_owned(),
                    ),
                );
            },
        };
        proof {
            lemma_find_first_bounds(command_names(self.commands@), ws[0]);
        }
        let id = match self.commands[index].command.id {
            Some(id) => id,
            None => {
                return Err(
                    AuroraError::CommandMentionError(
                        command_name.to_owned(),
                        "command ID not found".to_owned(),
                    ),
                );
            },
        };
        let mut out: Vec<char> = Vec::new();
        push_str(&mut out, "</");
        push_str(&mut out, segments[0].as_str());
        if segments.len() > 1 {
            push_str(&mut out, " ");
            push_joined(&mut out, &segments, 1);
        }
        push_str(&mut out, ":");
        push_decimal(&mut out, id);
        push_str(&mut out, ">");
        proof {
            reveal_strlit("</");
            reveal_strlit(" ");
            reveal_strlit(":");
            reveal_strlit(">");
            assert(string_views(segments@).skip(1) =~= ws.drop_first());
            assert(out@ =~= mention_text(ws[0], ws.drop_first(), id));
        }
        Ok(string_from_chars(out))
    }
}

} // verus!

verus! {

/// The ID of the last of `regs` named `name`, if any of them is.
pub open spec fn last_registered_id(regs: Seq<RegisteredCommand>, name: Seq<char>) -> Option<
    Option<u64>,
>
    decreases regs.len(),
{
    if regs.len() == 0 {
        None
    } else if regs.last().name@ == name {
        Some(regs.last().id)
    } else {
        last_registered_id(regs.drop_last(), name)
    }
}

/// Recording registered IDs keeps the commands, their order, their names
/// and their handlers.
pub proof fn lemma_registration_keeps_commands<H>(
    cmds: Seq<Command<H>>,
    regs: Seq<RegisteredCommand>,
)
    ensures
        register_all(cmds, regs).len() == cmds.len(),
        command_names(register_all(cmds, regs)) == command_names(cmds),
        forall|i: int|
            0 <= i < cmds.len() ==> (#[trigger] register_all(cmds, regs)[i]).handler
                == cmds[i].handler && register_all(cmds, regs)[i].command.name
                == cmds[i].command.name,
    decreases regs.len(),
{
    if regs.len() > 0 {
        let prev = register_all(cmds, regs.drop_last());
        lemma_registration_keeps_commands(cmds, regs.drop_last());
        lemma_find_first_bounds(command_names(prev), regs.last().name@);
        assert(command_names(register_all(cmds, regs)) =~= command_names(prev));
    }
}

/// After registration, the first command of each name carries the ID of
/// the last registered command of that name, and keeps its own ID where
/// no registered command has its name. Any later command of a name that
/// an earlier one already has keeps its ID.
pub proof fn lemma_registration_ids<H>(cmds: Seq<Command<H>>, regs: Seq<RegisteredCommand>, i: int)
    requires
        0 <= i < cmds.len(),
    ensures
        register_all(cmds, regs)[i].command.id == if find_first(
            command_names(cmds),
            cmds[i].command.name@,
        ) == Some(i) {
            match last_registered_id(regs, cmds[i].command.name@) {
                Some(id) => id,
                None => cmds[i].command.id,
            }
        } else {
            cmds[i].command.id
        },
    decreases regs.len(),
{
    let names = command_names(cmds);
    let name = cmds[i].command.name@;
    if regs.len() > 0 {
        let prev = register_all(cmds, regs.drop_last());
        lemma_registration_ids(cmds, regs.drop_last(), i);
        lemma_registration_keeps_commands(cmds, regs.drop_last());
        let reg = regs.last();
        lemma_find_first_bounds(names, reg.name@);
        lemma_find_first_bounds(names, name);
        assert(command_names(prev) == names);
        if find_first(names, reg.name@) == Some(i) {
            assert(names[i] == name);
        }
    }
}

/// A mention succeeds exactly when the command that the name refers to
/// exists and has an ID; the mention then carries that ID.
pub proof fn lemma_mention_succeeds_iff<H>(cmds: Seq<Command<H>>, command_name: Seq<char>)
    ensures
        mention_outcome(cmds, command_name) is Ok <==> (command_index(cmds, command_name) matches Some(
            i,
        ) && cmds[i].command.id is Some),
        mention_outcome(cmds, command_name) is Ok ==> mention_outcome(cmds, command_name)->Ok_0
            == mention_text(
            words(command_name)[0],
            words(command_name).drop_first(),
            cmds[command_index(cmds, command_name)->0].command.id->0,
        ),
{
}

/// Once registration has reported an ID for the command that a name
/// refers to, mentioning that name gives a mention with that ID.
pub proof fn lemma_mention_after_registration<H>(
    cmds: Seq<Command<H>>,
    regs: Seq<RegisteredCommand>,
    command_name: Seq<char>,
    id: u64,
)
    requires
        command_index(cmds, command_name) is Some,
        last_registered_id(regs, words(command_name)[0]) == Some(Some(id)),
    ensures
        mention_outcome(register_all(cmds, regs), command_name) == Ok::<Seq<char>, Seq<char>>(
            mention_text(words(command_name)[0], words(command_name).drop_first(), id),
        ),
{
    let w = words(command_name)[0];
    let i = command_index(cmds, command_name)->0;
    lemma_find_first_bounds(command_names(cmds), w);
    lemma_registration_keeps_commands(cmds, regs);
    lemma_registration_ids(cmds, regs, i);
    assert(command_names(cmds)[i] == cmds[i].command.name@);
}

} // verus!

verus! {

/// A successful mention is `</`, the command's name as given, any child
/// names, then `:`, the digits of the found command's full ID, and `>`:
/// reading those digits back gives the ID itself.
pub proof fn lemma_mention_carries_full_id<H>(cmds: Seq<Command<H>>, command_name: Seq<char>)
    ensures
        mention_outcome(cmds, command_name) matches Ok(t) ==> {
            let i = command_index(cmds, command_name)->0;
            let id = cmds[i].command.id->0;
            let d = decimal(id as nat);
            let w = words(command_name)[0];
            &&& 0 <= i < cmds.len()
            &&& cmds[i].command.name@ == w
            &&& t.len() >= w.len() + d.len() + 4
            &&& t.take(2) == seq!['<', '/']
            &&& t.subrange(2, 2 + w.len() as int) == w
            &&& t.subrange(t.len() - d.len() - 2, t.len() as int) == seq![':'] + d + seq!['>']
            &&& forall|k: int| 0 <= k < d.len() ==> is_digit(#[trigger] d[k])
            &&& decimal_value(d) == id
        },
{
    if let Ok(t) = mention_outcome(cmds, command_name) {
        let ws = words(command_name);
        let w = ws[0];
        let i = command_index(cmds, command_name)->0;
        let id = cmds[i].command.id->0;
        let d = decimal(id as nat);
        lemma_find_first_bounds(command_names(cmds), w);
        lemma_decimal_reads_back(id as nat);
        let head = if ws.drop_first().len() == 0 {
            w
        } else {
            w + seq![' '] + join_spaced(ws.drop_first())
        };
        assert(t == seq!['<', '/'] + head + seq![':'] + d + seq!['>']);
        assert(head.len() >= w.len());
        assert(head.subrange(0, w.len() as int) =~= w);
        assert(t.take(2) =~= seq!['<', '/']);
        assert(t.subrange(2, 2 + w.len() as int) =~= head.subrange(0, w.len() as int));
        assert(t.subrange(t.len() - d.len() - 2, t.len() as int) =~= seq![':'] + d + seq!['>']);
        assert(command_names(cmds)[i] == cmds[i].command.name@);
    }
}

} // verus!
