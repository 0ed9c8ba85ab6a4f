//! The command tree: an ordered hierarchy of named scopes, each holding
//! child scopes and leaf commands. The tree is built once at startup; no
//! scope name may collide with a sibling scope or command name, so the
//! greedy left-to-right walk of [`find_command`] is unambiguous.

use vstd::prelude::*;

use crate::errors::AppError;
use crate::lex::tokens_view;

verus! {

/// Which command a leaf stands for. The tree itself carries no behaviour;
/// the surrounding program maps each kind to its effect.
#[derive(Debug, Clone, Copy, PartialEq, Eq, Structural)]
pub enum CommandKind {
    ClassNew,
    ClassInfo,
    ClassDelete,
    ClassList,
    ObjectNew,
    ObjectInfo,
    ObjectDelete,
    ObjectList,
    ObjectModify,
    UserNew,
    UserDelete,
    UserInfo,
    UserList,
}

/// How one option of a command is autocompleted: not at all, from the two
/// boolean words, or from a remote resource kind.
#[derive(Debug, Clone, Copy, PartialEq, Eq, Structural)]
pub enum CompleterKind {
    NoCompletion,
    BoolValues,
    Classes,
    Namespaces,
    ObjectsFromClass,
    ObjectsFromClassFrom,
    ObjectsFromClassTo,
}

/// One recognized option of a command: its one-letter and long alias,
/// whether it is a flag (takes no value), and how it is autocompleted.
#[derive(Debug, Clone)]
pub struct OptionSpec {
    pub short: String,
    pub long: String,
    pub flag: bool,
    pub completer: CompleterKind,
}

/// One leaf command: its name, which command it stands for, and its
/// declared schema of options and expected positional slots.
#[derive(Debug, Clone)]
pub struct CommandEntry {
    pub name: String,
    pub kind: CommandKind,
    pub options: Vec<OptionSpec>,
    pub positionals: Vec<String>,
}

/// One scope: its child scopes, each a name with the index of the child
/// node, and its leaf commands.
#[derive(Debug, Clone)]
pub struct ScopeNode {
    pub scopes: Vec<(String, usize)>,
    pub commands: Vec<CommandEntry>,
}

/// The command tree: all scope nodes in one arena, the root at index zero.
/// A child's index is always greater than its parent's, so the hierarchy is
/// tree-shaped.
#[derive(Debug, Clone)]
pub struct CommandTree {
    pub nodes: Vec<ScopeNode>,
}

/// The index of the first child scope named `name`, scanning from `i`.
pub open spec fn spec_find_scope(scopes: Seq<(String, usize)>, name: Seq<char>, i: int) -> Option<
    int,
>
    decreases scopes.len() - i,
{
    if i < 0 || i >= scopes.len() {
        None
    } else if scopes[i].0@ == name {
        Some(scopes[i].1 as int)
    } else {
        spec_find_scope(scopes, name, i + 1)
    }
}

/// The position of the first command named `name`, scanning from `i`.
pub open spec fn spec_find_command(cmds: Seq<CommandEntry>, name: Seq<char>, i: int) -> Option<int>
    decreases cmds.len() - i,
{
    if i < 0 || i >= cmds.len() {
        None
    } else if cmds[i].name@ == name {
        Some(i)
    } else {
        spec_find_command(cmds, name, i + 1)
    }
}

/// Whether a node has a child scope or command named `name`.
pub open spec fn node_has_name(n: ScopeNode, name: Seq<char>) -> bool {
    spec_find_scope(n.scopes@, name, 0) is Some || spec_find_command(n.commands@, name, 0) is Some
}

/// Every child index points into the arena and past its parent: the nodes
/// form a tree.
pub open spec fn wf_indices(nodes: Seq<ScopeNode>) -> bool {
    &&& nodes.len() > 0
    &&& forall|i: int, j: int|
        0 <= i < nodes.len() && 0 <= j < nodes[i].scopes@.len() ==> i < (
        #[trigger] nodes[i].scopes@[j]).1 < nodes.len()
}

/// No scope name collides with a sibling scope or command name, and no two
/// sibling commands share a name.
pub open spec fn wf_names(nodes: Seq<ScopeNode>) -> bool {
    &&& forall|i: int, a: int, b: int|
        0 <= i < nodes.len() && 0 <= a < b < nodes[i].scopes@.len() ==> (
        #[trigger] nodes[i].scopes@[a]).0@ != (#[trigger] nodes[i].scopes@[b]).0@
    &&& forall|i: int, a: int, b: int|
        0 <= i < nodes.len() && 0 <= a < b < nodes[i].commands@.len() ==> (
        #[trigger] nodes[i].commands@[a]).name@ != (#[trigger] nodes[i].commands@[b]).name@
    &&& forall|i: int, a: int, b: int|
        0 <= i < nodes.len() && 0 <= a < nodes[i].scopes@.len() && 0 <= b
            < nodes[i].commands@.len() ==> (#[trigger] nodes[i].scopes@[a]).0@ != (
        #[trigger] nodes[i].commands@[b]).name@
}

impl CommandTree {
    /// A well-formed tree: sound child indices and unambiguous names.
    pub open spec fn wf(&self) -> bool {
        wf_indices(self.nodes@) && wf_names(self.nodes@)
    }

    /// The empty tree: one root scope without children.
    pub fn new() -> (t: CommandTree)
        ensures
            t.wf(),
            t.nodes@.len() == 1,
            t.nodes@[0].scopes@.len() == 0,
            t.nodes@[0].commands@.len() == 0,
    {
        let root = ScopeNode { scopes: Vec::new(), commands: Vec::new() };
        let mut nodes: Vec<ScopeNode> = Vec::new();
        nodes.push(root);
        CommandTree { nodes }
    }
}

proof fn lemma_find_scope_none(scopes: Seq<(String, usize)>, name: Seq<char>, i: int)
    requires
        0 <= i,
        spec_find_scope(scopes, name, i) is None,
    ensures
        forall|j: int| i <= j < scopes.len() ==> (#[trigger] scopes[j]).0@ != name,
    decreases scopes.len() - i,
{
    if i < scopes.len() {
        lemma_find_scope_none(scopes, name, i + 1);
    }
}

proof fn lemma_find_command_none(cmds: Seq<CommandEntry>, name: Seq<char>, i: int)
    requires
        0 <= i,
        spec_find_command(cmds, name, i) is None,
    ensures
        forall|j: int| i <= j < cmds.len() ==> (#[trigger] cmds[j]).name@ != name,
    decreases cmds.len() - i,
{
    if i < cmds.len() {
        lemma_find_command_none(cmds, name, i + 1);
    }
}

impl CommandTree {
    /// Adds an empty child scope named `name` under the scope `parent` and
    /// returns the new node's index. A name already taken by a sibling
    /// scope or command is rejected, keeping the tree unchanged.
    pub fn add_scope(&mut self, parent: usize, name: &str) -> (r: Result<usize, AppError>)
        requires
            old(self).wf(),
            parent < old(self).nodes@.len(),
        ensures
            final(self).wf(),
            match r {
                Ok(idx) => {
                    &&& !node_has_name(old(self).nodes@[parent as int], name@)
                    &&& idx == old(self).nodes@.len()
                    &&& final(self).nodes@.len() == old(self).nodes@.len() + 1
                    &&& final(self).nodes@[idx as int].scopes@.len() == 0
                    &&& final(self).nodes@[idx as int].commands@.len() == 0
                    &&& final(self).nodes@[parent as int].commands@ == old(self).nodes@[
                        parent as int].commands@
                    &&& final(self).nodes@[parent as int].scopes@.len() == old(self).nodes@[
                        parent as int].scopes@.len() + 1
                    &&& final(self).nodes@[parent as int].scopes@.last().0@ == name@
                    &&& final(self).nodes@[parent as int].scopes@.last().1 == idx
                    &&& forall|j: int|
                        0 <= j < old(self).nodes@[parent as int].scopes@.len()
                            ==> final(self).nodes@[parent as int].scopes@[j] == old(self).nodes@[
                        parent as int].scopes@[j]
                    &&& forall|k: int|
                        0 <= k < old(self).nodes@.len() && k != parent ==> final(self).nodes@[k]
                            == old(self).nodes@[k]
                },
                Err(e) => {
                    &&& node_has_name(old(self).nodes@[parent as int], name@)
                    &&& *final(self) == *old(self)
                    &&& e matches AppError::AmbiguousName(nm) && nm@ == name@
                },
            },
    {
        let name_s: String = name.to_owned();
        let collides = match node_find_scope(&self.nodes[parent], &name_s) {
            Some(_) => true,
            None => match node_find_command(&self.nodes[parent], &name_s) {
                Some(_) => true,
                None => false,
            },
        };
        if collides {
            return Err(AppError::AmbiguousName(name_s));
        }
        let ghost old_nodes = self.nodes@;
        let idx = self.nodes.len();
        self.nodes.push(ScopeNode { scopes: Vec::new(), commands: Vec::new() });
        self.nodes[parent].scopes.push((name_s, idx));
        proof {
            let nodes = self.nodes@;
            lemma_find_scope_none(old_nodes[parent as int].scopes@, name@, 0);
            assert forall|i: int, j: int|
                0 <= i < nodes.len() && 0 <= j < nodes[i].scopes@.len() implies i < (
            #[trigger] nodes[i].scopes@[j]).1 < nodes.len() by {
                if i == parent && j == nodes[i].scopes@.len() - 1 {
                } else if i < old_nodes.len() {
                    assert(old_nodes[i].scopes@[j] == nodes[i].scopes@[j]);
                }
            }
            assert(wf_names(nodes)) by {
                assert forall|i: int, a: int, b: int|
                    0 <= i < nodes.len() && 0 <= a < b < nodes[i].scopes@.len() implies (
                #[trigger] nodes[i].scopes@[a]).0@ != (#[trigger] nodes[i].scopes@[b]).0@ by {
                    if i == parent && b == nodes[i].scopes@.len() - 1 {
                        assert(old_nodes[i].scopes@[a] == nodes[i].scopes@[a]);
                    } else if i < old_nodes.len() {
                        assert(old_nodes[i].scopes@[a] == nodes[i].scopes@[a]);
                        assert(old_nodes[i].scopes@[b] == nodes[i].scopes@[b]);
                    }
                }
                assert forall|i: int, a: int, b: int|
                    0 <= i < nodes.len() && 0 <= a < nodes[i].scopes@.len() && 0 <= b < nodes[
                    i].commands@.len() implies (#[trigger] nodes[i].scopes@[a]).0@ != (
                #[trigger] nodes[i].commands@[b]).name@ by {
                    if i == parent && a == nodes[i].scopes@.len() - 1 {
                        lemma_find_command_none(old_nodes[parent as int].commands@, name@, 0);
                    } else if i < old_nodes.len() {
                        assert(old_nodes[i].scopes@[a] == nodes[i].scopes@[a]);
                    }
                }
            }
        }
        Ok(idx)
    }

    /// Adds the leaf command `entry` under the scope `parent`. A command
    /// name already taken by a sibling scope or command is rejected,
    /// keeping the tree unchanged.
    pub fn add_command(&mut self, parent: usize, entry: CommandEntry) -> (r: Result<(), AppError>)
        requires
            old(self).wf(),
            parent < old(self).nodes@.len(),
        ensures
            final(self).wf(),
            match r {
                Ok(_) => {
                    &&& !node_has_name(old(self).nodes@[parent as int], entry.name@)
                    &&& final(self).nodes@.len() == old(self).nodes@.len()
                    &&& final(self).nodes@[parent as int].scopes@ == old(self).nodes@[
                        parent as int].scopes@
                    &&& final(self).nodes@[parent as int].commands@ == old(self).nodes@[
                        parent as int].commands@.push(entry)
                    &&& forall|k: int|
                        0 <= k < old(self).nodes@.len() && k != parent ==> final(self).nodes@[k]
                            == old(self).nodes@[k]
                },
                Err(e) => {
                    &&& node_has_name(old(self).nodes@[parent as int], entry.name@)
                    &&& *final(self) == *old(self)
                    &&& e matches AppError::AmbiguousName(nm) && nm@ == entry.name@
                },
            },
    {
        let collides = match node_find_scope(&self.nodes[parent], &entry.name) {
            Some(_) => true,
            None => match node_find_command(&self.nodes[parent], &entry.name) {
                Some(_) => true,
                None => false,
            },
        };
        if collides {
            return Err(AppError::AmbiguousName(entry.name));
        }
        let ghost old_nodes = self.nodes@;
        let ghost name = entry.name@;
        self.nodes[parent].commands.push(entry);
        proof {
            let nodes = self.nodes@;
            lemma_find_scope_none(old_nodes[parent as int].scopes@, name, 0);
            lemma_find_command_none(old_nodes[parent as int].commands@, name, 0);
            assert forall|i: int, j: int|
                0 <= i < nodes.len() && 0 <= j < nodes[i].scopes@.len() implies i < (
            #[trigger] nodes[i].scopes@[j]).1 < nodes.len() by {
                assert(old_nodes[i].scopes@[j] == nodes[i].scopes@[j]);
            }
            assert(wf_names(nodes)) by {
                assert forall|i: int, a: int, b: int|
                    0 <= i < nodes.len() && 0 <= a < b < nodes[i].commands@.len() implies (
                #[trigger] nodes[i].commands@[a]).name@ != (
                #[trigger] nodes[i].commands@[b]).name@ by {
                    if i == parent && b == nodes[i].commands@.len() - 1 {
                        assert(old_nodes[i].commands@[a] == nodes[i].commands@[a]);
                    } else {
                        assert(old_nodes[i].commands@[a] == nodes[i].commands@[a]);
                        assert(old_nodes[i].commands@[b] == nodes[i].commands@[b]);
                    }
                }
                assert forall|i: int, a: int, b: int|
                    0 <= i < nodes.len() && 0 <= a < nodes[i].scopes@.len() && 0 <= b < nodes[
                    i].commands@.len() implies (#[trigger] nodes[i].scopes@[a]).0@ != (
                #[trigger] nodes[i].commands@[b]).name@ by {
                    if i == parent && b == nodes[i].commands@.len() - 1 {
                    } else {
                        assert(old_nodes[i].commands@[b] == nodes[i].commands@[b]);
                    }
                }
            }
        }
        Ok(())
    }
}

/// The first child scope of `n` named `name`, if any.
fn node_find_scope(n: &ScopeNode, name: &String) -> (r: Option<usize>)
    ensures
        match r {
            Some(c) => spec_find_scope(n.scopes@, name@, 0) == Some(c as int) && exists|j: int|
                0 <= j < n.scopes@.len() && (#[trigger] n.scopes@[j]).1 == c
                    && n.scopes@[j].0@ == name@,
            None => spec_find_scope(n.scopes@, name@, 0) is None,
        },
{
    let mut j: usize = 0;
    while j < n.scopes.len()
        invariant
            0 <= j <= n.scopes@.len(),
            spec_find_scope(n.scopes@, name@, 0) == spec_find_scope(n.scopes@, name@, j as int),
        decreases n.scopes@.len() - j,
    {
        if n.scopes[j].0.eq(name) {
            return Some(n.scopes[j].1);
        }
        j = j + 1;
    }
    None
}

/// The position of the first command of `n` named `name`, if any.
fn node_find_command(n: &ScopeNode, name: &String) -> (r: Option<usize>)
    ensures
        match r {
            Some(c) => spec_find_command(n.commands@, name@, 0) == Some(c as int) && c
                < n.commands@.len() && n.commands@[c as int].name@ == name@,
            None => spec_find_command(n.commands@, name@, 0) is None,
        },
{
    let mut j: usize = 0;
    while j < n.commands.len()
        invariant
            0 <= j <= n.commands@.len(),
            spec_find_command(n.commands@, name@, 0) == spec_find_command(
                n.commands@,
                name@,
                j as int,
            ),
        decreases n.commands@.len() - j,
    {
        if n.commands[j].name.eq(name) {
            return Some(j);
        }
        j = j + 1;
    }
    None
}

/// What the greedy walk yields: the line named no command (all words were
/// scopes), a command was found after consuming `consumed` scope words, or
/// an unresolvable word was hit after `consumed` scope words.
pub enum WalkResult {
    NoCommand,
    Found { consumed: int, node: int, cmd: int },
    Miss { consumed: int, token: Seq<char> },
}

/// The greedy left-to-right walk from node `node` over `parts[i..]`: descend
/// into a child scope when the word names one, stop at a command when it
/// names one, fail otherwise, with no backtracking.
pub open spec fn spec_walk(
    nodes: Seq<ScopeNode>,
    node: int,
    parts: Seq<Seq<char>>,
    i: int,
) -> WalkResult
    decreases parts.len() - i,
{
    if i < 0 || i >= parts.len() {
        WalkResult::NoCommand
    } else if 0 <= node < nodes.len() {
        let p = parts[i];
        match spec_find_scope(nodes[node].scopes@, p, 0) {
            Some(child) => spec_walk(nodes, child, parts, i + 1),
            None => match spec_find_command(nodes[node].commands@, p, 0) {
                Some(ci) => WalkResult::Found { consumed: i, node, cmd: ci },
                None => WalkResult::Miss { consumed: i, token: p },
            },
        }
    } else {
        WalkResult::Miss { consumed: i, token: parts[i] }
    }
}

proof fn lemma_find_scope_some(scopes: Seq<(String, usize)>, name: Seq<char>, i: int)
    requires
        0 <= i,
    ensures
        spec_find_scope(scopes, name, i) is Some ==> exists|j: int|
            i <= j < scopes.len() && (#[trigger] scopes[j]).0@ == name,
    decreases scopes.len() - i,
{
    if i < scopes.len() && scopes[i].0@ != name {
        lemma_find_scope_some(scopes, name, i + 1);
    }
}

/// Law: under the construction invariant no word names both a child scope
/// and a sibling command, so the greedy walk never faces a choice between
/// descending and stopping.
pub proof fn lemma_walk_unambiguous(nodes: Seq<ScopeNode>, i: int, name: Seq<char>)
    requires
        wf_names(nodes),
        0 <= i < nodes.len(),
    ensures
        !(spec_find_scope(nodes[i].scopes@, name, 0) is Some && spec_find_command(
            nodes[i].commands@,
            name,
            0,
        ) is Some),
{
    if spec_find_scope(nodes[i].scopes@, name, 0) is Some && spec_find_command(
        nodes[i].commands@,
        name,
        0,
    ) is Some {
        lemma_find_scope_some(nodes[i].scopes@, name, 0);
        lemma_find_command_some(nodes[i].commands@, name, 0);
        let a = choose|a: int|
            0 <= a < nodes[i].scopes@.len() && (#[trigger] nodes[i].scopes@[a]).0@ == name;
        let c = spec_find_command(nodes[i].commands@, name, 0)->Some_0;
        assert(nodes[i].commands@[c].name@ == name);
        assert(nodes[i].scopes@[a].0@ != nodes[i].commands@[c].name@);
    }
}

/// A found walk names a word of the line and a command present in the tree.
pub proof fn lemma_walk_found_bounds(
    nodes: Seq<ScopeNode>,
    node: int,
    parts: Seq<Seq<char>>,
    i: int,
)
    requires
        0 <= i,
    ensures
        spec_walk(nodes, node, parts, i) matches WalkResult::Found { consumed, node: n2, cmd }
            ==> i <= consumed < parts.len() && 0 <= n2 < nodes.len() && 0 <= cmd < nodes[
        n2].commands@.len() && nodes[n2].commands@[cmd].name@ == parts[consumed],
    decreases parts.len() - i,
{
    if 0 <= i < parts.len() && 0 <= node < nodes.len() {
        let p = parts[i];
        match spec_find_scope(nodes[node].scopes@, p, 0) {
            Some(child) => {
                lemma_walk_found_bounds(nodes, child, parts, i + 1);
            },
            None => {
                match spec_find_command(nodes[node].commands@, p, 0) {
                    Some(ci) => {
                        lemma_find_command_some(nodes[node].commands@, p, 0);
                    },
                    None => {},
                }
            },
        }
    }
}

proof fn lemma_find_command_some(cmds: Seq<CommandEntry>, name: Seq<char>, i: int)
    requires
        0 <= i,
    ensures
        spec_find_command(cmds, name, i) matches Some(c) ==> i <= c < cmds.len() && cmds[c].name@
            == name,
    decreases cmds.len() - i,
{
    if i < cmds.len() && cmds[i].name@ != name {
        lemma_find_command_some(cmds, name, i + 1);
    }
}

/// A command matched by the tree walk: the node and command position in the
/// tree, and the matched command word.
#[derive(Debug, Clone)]
pub struct CommandMatch {
    pub node: usize,
    pub cmd: usize,
    pub name: String,
}

/// Walks the tree along `parts`, pushing each consumed scope word onto
/// `context`. Returns the matched command, `None` when every word named a
/// scope, or `CommandNotFound` naming the first unresolvable word.
pub fn find_command(cli: &CommandTree, parts: &Vec<String>, context: &mut Vec<String>) -> (r:
    Result<Option<CommandMatch>, AppError>)
    requires
        cli.wf(),
    ensures
        match spec_walk(cli.nodes@, 0, tokens_view(parts@), 0) {
            WalkResult::NoCommand => {
                &&& r matches Ok(m) && m is None
                &&& final(context)@ == old(context)@ + parts@
            },
            WalkResult::Found { consumed, node, cmd } => {
                &&& r matches Ok(m) && m matches Some(cm) && cm.node == node && cm.cmd == cmd
                    && cm.name@ == tokens_view(parts@)[consumed]
                &&& final(context)@ == old(context)@ + parts@.subrange(0, consumed)
            },
            WalkResult::Miss { consumed, token } => {
                &&& r matches Err(e) && e matches AppError::CommandNotFound(msg) && msg@
                    == "Command not found: "@ + token
                &&& final(context)@ == old(context)@ + parts@.subrange(0, consumed)
            },
        },
{
    let ghost toks = tokens_view(parts@);
    let n = parts.len();
    let mut node: usize = 0;
    let mut i: usize = 0;
    proof {
        assert(parts@.subrange(0, 0) =~= Seq::<String>::empty());
        assert(old(context)@ + parts@.subrange(0, 0) =~= old(context)@);
    }
    while i < n
        invariant
            0 <= i <= n,
            n == parts@.len(),
            toks == tokens_view(parts@),
            cli.wf(),
            0 <= node < cli.nodes@.len(),
            spec_walk(cli.nodes@, 0, toks, 0) == spec_walk(cli.nodes@, node as int, toks, i as int),
            context@ == old(context)@ + parts@.subrange(0, i as int),
        decreases n - i,
    {
        let p = &parts[i];
        proof {
            assert(toks[i as int] == parts@[i as int]@);
        }
        match node_find_scope(&cli.nodes[node], p) {
            Some(child) => {
                context.push(p.clone());
                proof {
                    assert(context@ =~= old(context)@ + parts@.subrange(0, i + 1 as int));
                }
                node = child;
                i = i + 1;
            },
            None => {
                match node_find_command(&cli.nodes[node], p) {
                    Some(ci) => {
                        return Ok(
                            Some(CommandMatch { node, cmd: ci, name: p.clone() }),
                        );
                    },
                    None => {
                        let mut msg: String = "Command not found: ".to_owned();
                        msg.append(p.as_str());
                        return Err(AppError::CommandNotFound(msg));
                    },
                }
            },
        }
    }
    proof {
        assert(parts@.subrange(0, n as int) =~= parts@);
    }
    Ok(None)
}

/// The node reached by following child scopes for each word in turn,
/// stopping at the first word that names none.
pub open spec fn spec_walk_scopes(
    nodes: Seq<ScopeNode>,
    node: int,
    words: Seq<Seq<char>>,
    i: int,
) -> int
    decreases words.len() - i,
{
    if i < 0 || i >= words.len() || !(0 <= node < nodes.len()) {
        node
    } else {
        match spec_find_scope(nodes[node].scopes@, words[i], 0) {
            Some(child) => spec_walk_scopes(nodes, child, words, i + 1),
            None => node,
        }
    }
}

/// Follows child scopes along the words already typed and returns the scope
/// reached: the place whose children are the completion candidates.
pub fn walk_scopes(cli: &CommandTree, words: &Vec<String>) -> (r: usize)
    requires
        cli.wf(),
    ensures
        r < cli.nodes@.len(),
        r == spec_walk_scopes(cli.nodes@, 0, tokens_view(words@), 0),
{
    let ghost toks = tokens_view(words@);
    let n = words.len();
    let mut node: usize = 0;
    let mut i: usize = 0;
    while i < n
        invariant
            0 <= i <= n,
            n == words@.len(),
            toks == tokens_view(words@),
            cli.wf(),
            0 <= node < cli.nodes@.len(),
            spec_walk_scopes(cli.nodes@, 0, toks, 0) == spec_walk_scopes(
                cli.nodes@,
                node as int,
                toks,
                i as int,
            ),
        decreases n - i,
    {
        let p = &words[i];
        proof {
            assert(toks[i as int] == words@[i as int]@);
        }
        match node_find_scope(&cli.nodes[node], p) {
            Some(child) => {
                node = child;
                i = i + 1;
            },
            None => {
                return node;
            },
        }
    }
    node
}

/// Whether `name` is a child name of the node: a child scope's or a
/// command's.
pub open spec fn is_child_name(n: ScopeNode, name: Seq<char>) -> bool {
    (exists|j: int| 0 <= j < n.scopes@.len() && (#[trigger] n.scopes@[j]).0@ == name) || (exists|
        j: int,
    | 0 <= j < n.commands@.len() && (#[trigger] n.commands@[j]).name@ == name)
}

/// The completion candidates under one scope: every child scope or command
/// name that starts with `prefix`, each exactly once.
pub fn completion_candidates(cli: &CommandTree, node: usize, prefix: &str) -> (r: Vec<String>)
    requires
        cli.wf(),
        node < cli.nodes@.len(),
    ensures
        forall|k: int|
            0 <= k < r@.len() ==> is_child_name(cli.nodes@[node as int], (#[trigger] r@[k])@)
                && prefix@.is_prefix_of(r@[k]@),
        forall|name: Seq<char>|
            is_child_name(cli.nodes@[node as int], name) && prefix@.is_prefix_of(name)
                ==> exists|k: int| 0 <= k < r@.len() && (#[trigger] r@[k])@ == name,
{
    let mut r: Vec<String> = Vec::new();
    let n = &cli.nodes[node];
    let mut j: usize = 0;
    while j < n.scopes.len()
        invariant
            0 <= j <= n.scopes@.len(),
            n == cli.nodes@[node as int],
            forall|k: int|
                0 <= k < r@.len() ==> is_child_name(cli.nodes@[node as int], (#[trigger] r@[k])@)
                    && prefix@.is_prefix_of(r@[k]@),
            forall|l: int|
                0 <= l < j && prefix@.is_prefix_of(#[trigger] n.scopes@[l].0@) ==> exists|k: int|
                    0 <= k < r@.len() && (#[trigger] r@[k])@ == n.scopes@[l].0@,
        decreases n.scopes@.len() - j,
    {
        if crate::value::str_starts_with(n.scopes[j].0.as_str(), prefix) {
            let ghost prev = r@;
            r.push(n.scopes[j].0.clone());
            proof {
                assert(r@[prev.len() as int]@ == n.scopes@[j as int].0@);
                assert(forall|k: int| 0 <= k < prev.len() ==> r@[k] == prev[k]);
            }
        }
        j = j + 1;
    }
    let mut c: usize = 0;
    while c < n.commands.len()
        invariant
            0 <= c <= n.commands@.len(),
            n == cli.nodes@[node as int],
            forall|k: int|
                0 <= k < r@.len() ==> is_child_name(cli.nodes@[node as int], (#[trigger] r@[k])@)
                    && prefix@.is_prefix_of(r@[k]@),
            forall|l: int|
                0 <= l < n.scopes@.len() && prefix@.is_prefix_of(#[trigger] n.scopes@[l].0@)
                    ==> exists|k: int| 0 <= k < r@.len() && (#[trigger] r@[k])@ == n.scopes@[l].0@,
            forall|l: int|
                0 <= l < c && prefix@.is_prefix_of(#[trigger] n.commands@[l].name@) ==> exists|
                    k: int,
                | 0 <= k < r@.len() && (#[trigger] r@[k])@ == n.commands@[l].name@,
        decreases n.commands@.len() - c,
    {
        if crate::value::str_starts_with(n.commands[c].name.as_str(), prefix) {
            let ghost prev = r@;
            r.push(n.commands[c].name.clone());
            proof {
                assert(r@[prev.len() as int]@ == n.commands@[c as int].name@);
                assert(forall|k: int| 0 <= k < prev.len() ==> r@[k] == prev[k]);
            }
        }
        c = c + 1;
    }
    r
}

} // verus!
