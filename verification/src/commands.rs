//! Command trees that plugins register: the root command, literal and
//! argument nodes, and the plugin handlers attached to them.

use vstd::prelude::*;
use vstd::string::*;
use vstd::utf8::*;

verus! {

/// Runs a command through the plugin's command handler with this id.
#[derive(Clone, Copy, Debug, PartialEq, Eq, Structural)]
pub struct WasmCommandExecutor {
    pub handler_id: u32,
}

/// Asks the plugin's suggestion handler with this id for completions.
#[derive(Clone, Copy, Debug, PartialEq, Eq, Structural)]
pub struct WasmCommandSuggestionProvider {
    pub handler_id: u32,
}

/// A finished node of a command tree.
pub enum DetachedNode {
    /// A fixed word.
    Literal { literal: String, children: Vec<DetachedNode>, executor: Option<WasmCommandExecutor> },
    /// A named argument.
    Argument {
        name: String,
        children: Vec<DetachedNode>,
        executor: Option<WasmCommandExecutor>,
        suggestions: Option<WasmCommandSuggestionProvider>,
    },
}

/// Builder of a literal node.
pub struct LiteralArgumentBuilder {
    pub literal: String,
    pub children: Vec<DetachedNode>,
    pub executor: Option<WasmCommandExecutor>,
}

/// Builder of an argument node.
pub struct RequiredArgumentBuilder {
    pub name: String,
    pub children: Vec<DetachedNode>,
    pub executor: Option<WasmCommandExecutor>,
    pub suggestions: Option<WasmCommandSuggestionProvider>,
}

/// Builder of the root of a command.
pub struct CommandArgumentBuilder {
    pub name: String,
    pub description: String,
    pub children: Vec<DetachedNode>,
    pub executor: Option<WasmCommandExecutor>,
}

/// A command a plugin registers: its names, the first being the primary one,
/// and the tree under it.
pub struct WasmCommand {
    pub names: Vec<String>,
    pub builder: CommandArgumentBuilder,
}

/// A node of a command tree under construction.
pub enum WasmCommandNode {
    Literal(LiteralArgumentBuilder),
    Argument(RequiredArgumentBuilder),
}

/// Starts a literal node.
pub fn literal(word: String) -> (res: LiteralArgumentBuilder)
    ensures
        res.literal == word,
        res.children@.len() == 0,
        res.executor is None,
{
    LiteralArgumentBuilder { literal: word, children: Vec::new(), executor: None }
}

/// Starts an argument node.
pub fn argument(name: String) -> (res: RequiredArgumentBuilder)
    ensures
        res.name == name,
        res.children@.len() == 0,
        res.executor is None,
        res.suggestions is None,
{
    RequiredArgumentBuilder { name, children: Vec::new(), executor: None, suggestions: None }
}

impl WasmCommand {
    /// A command with these names, its root named after the first of them
    /// (the empty name when there is none), with no children and no handler.
    pub fn new(names: Vec<String>, description: String) -> (res: Self)
        ensures
            res.names@ == names@,
            names@.len() > 0 ==> res.builder.name@ == names@[0]@,
            names@.len() == 0 ==> res.builder.name@ == Seq::<char>::empty(),
            res.builder.description == description,
            res.builder.children@.len() == 0,
            res.builder.executor is None,
    {
        let primary = if names.len() > 0 {
            names[0].clone()
        } else {
            String::new()
        };
        let builder = CommandArgumentBuilder {
            name: primary,
            description,
            children: Vec::new(),
            executor: None,
        };
        Self { names, builder }
    }

    /// Adds `child`, finished, as the last child of the root.
    pub fn then(self, child: WasmCommandNode) -> (res: Self)
        ensures
            res.names == self.names,
            res.builder.name == self.builder.name,
            res.builder.description == self.builder.description,
            res.builder.executor == self.builder.executor,
            res.builder.children@ == self.builder.children@.push(child.detached()),
    {
        let mut this = self;
        this.builder.children.push(child.into_detached_node());
        this
    }

    /// Makes `executor` the handler of the command itself.
    pub fn executes(self, executor: WasmCommandExecutor) -> (res: Self)
        ensures
            res.names == self.names,
            res.builder.name == self.builder.name,
            res.builder.description == self.builder.description,
            res.builder.children == self.builder.children,
            res.builder.executor == Some(executor),
    {
        let mut this = self;
        this.builder.executor = Some(executor);
        this
    }
}

impl WasmCommandNode {
    /// The finished node this builder makes.
    pub open spec fn detached(self) -> DetachedNode {
        match self {
            WasmCommandNode::Literal(b) => DetachedNode::Literal {
                literal: b.literal,
                children: b.children,
                executor: b.executor,
            },
            WasmCommandNode::Argument(b) => DetachedNode::Argument {
                name: b.name,
                children: b.children,
                executor: b.executor,
                suggestions: b.suggestions,
            },
        }
    }

    /// The children added so far.
    pub open spec fn children(self) -> Seq<DetachedNode> {
        match self {
            WasmCommandNode::Literal(b) => b.children@,
            WasmCommandNode::Argument(b) => b.children@,
        }
    }

    /// Adds `child`, finished, as the last child of this node.
    pub fn then(self, child: Self) -> (res: Self)
        ensures
            res.children() == self.children().push(child.detached()),
            self is Literal ==> (res matches WasmCommandNode::Literal(r) && self->Literal_0.literal
                == r.literal && self->Literal_0.executor == r.executor),
            self is Argument ==> (res matches WasmCommandNode::Argument(r) && self->Argument_0.name
                == r.name && self->Argument_0.executor == r.executor
                && self->Argument_0.suggestions == r.suggestions),
    {
        let node = child.into_detached_node();
        match self {
            Self::Literal(mut b) => {
                b.children.push(node);
                Self::Literal(b)
            },
            Self::Argument(mut b) => {
                b.children.push(node);
                Self::Argument(b)
            },
        }
    }

    /// Makes `executor` the handler of this node.
    pub fn executes(self, executor: WasmCommandExecutor) -> (res: Self)
        ensures
            res.children() == self.children(),
            self is Literal ==> (res matches WasmCommandNode::Literal(r) && self->Literal_0.literal
                == r.literal && r.executor == Some(executor)),
            self is Argument ==> (res matches WasmCommandNode::Argument(r) && self->Argument_0.name
                == r.name && r.executor == Some(executor) && self->Argument_0.suggestions
                == r.suggestions),
    {
        match self {
            Self::Literal(mut b) => {
                b.executor = Some(executor);
                Self::Literal(b)
            },
            Self::Argument(mut b) => {
                b.executor = Some(executor);
                Self::Argument(b)
            },
        }
    }

    /// Makes `provider` the source of suggestions of an argument node; a
    /// literal node is left as it is.
    pub fn suggests(self, provider: WasmCommandSuggestionProvider) -> (res: Self)
        ensures
            self is Literal ==> res == self,
            self is Argument ==> (res matches WasmCommandNode::Argument(r) && self->Argument_0.name
                == r.name && self->Argument_0.children == r.children && self->Argument_0.executor
                == r.executor && r.suggestions == Some(provider)),
    {
        match self {
            Self::Literal(b) => Self::Literal(b),
            Self::Argument(mut b) => {
                b.suggestions = Some(provider);
                Self::Argument(b)
            },
        }
    }

    /// Finishes the node, keeping its word or name, its children and its
    /// handlers.
    pub fn into_detached_node(self) -> (res: DetachedNode)
        ensures
            res == self.detached(),
            self matches WasmCommandNode::Literal(b) ==> (res matches DetachedNode::Literal {
                literal,
                children,
                executor,
            } && literal == b.literal && children == b.children && executor == b.executor),
            self matches WasmCommandNode::Argument(b) ==> (res matches DetachedNode::Argument {
                name,
                children,
                executor,
                suggestions,
            } && name == b.name && children == b.children && executor == b.executor && suggestions
                == b.suggestions),
    {
        match self {
            Self::Literal(b) => DetachedNode::Literal {
                literal: b.literal,
                children: b.children,
                executor: b.executor,
            },
            Self::Argument(b) => DetachedNode::Argument {
                name: b.name,
                children: b.children,
                executor: b.executor,
                suggestions: b.suggestions,
            },
        }
    }
}

/// Finishing a node keeps its handler: the finished node of a literal builder
/// has the builder's word, children and executor, and that of an argument
/// builder its name, children, executor and suggestion provider. So a node
/// that was given a handler `e` carries `Some(e)` once attached.
pub proof fn lemma_detached_keeps_fields(node: WasmCommandNode, e: WasmCommandExecutor)
    ensures
        node matches WasmCommandNode::Literal(b) ==> (node.detached() matches DetachedNode::Literal {
            literal,
            children,
            executor,
        } && literal == b.literal && children == b.children && executor == b.executor),
        node matches WasmCommandNode::Argument(b) ==> (node.detached() matches DetachedNode::Argument {
            name,
            children,
            executor,
            suggestions,
        } && name == b.name && children == b.children && executor == b.executor && suggestions
            == b.suggestions),
        node matches WasmCommandNode::Literal(b) && b.executor == Some(e) ==> (
        node.detached() matches DetachedNode::Literal { executor, .. } && executor == Some(e)),
        node matches WasmCommandNode::Argument(b) && b.executor == Some(e) ==> (
        node.detached() matches DetachedNode::Argument { executor, .. } && executor == Some(e)),
{
}

/// What a plugin's suggestion handler is asked: the command line typed so
/// far, the cursor, where the word being completed starts, and the text from
/// there on.
pub struct SuggestionRequest {
    pub input: String,
    pub cursor: u32,
    pub start: u32,
    pub remaining: String,
}

/// `n`, or the largest `u32` when `n` does not fit in one.
pub open spec fn saturated_u32(n: int) -> u32 {
    if n <= u32::MAX {
        n as u32
    } else {
        u32::MAX
    }
}

fn saturate_to_u32(n: usize) -> (res: u32)
    ensures
        res == saturated_u32(n as int),
{
    if n <= 4294967295usize {
        n as u32
    } else {
        4294967295u32
    }
}

/// The request a suggestion handler gets for the command line `input`, the
/// word being completed starting at byte `start`, and the text `remaining`
/// from there on: the cursor stands at the end of the line, in bytes; each
/// position is cut to the largest `u32` when it does not fit in one.
pub fn suggestion_request(input: String, start: usize, remaining: String) -> (res: SuggestionRequest)
    ensures
        res.input == input,
        res.cursor == saturated_u32((encode_utf8(input@).len() as usize) as int),
        res.start == saturated_u32(start as int),
        res.remaining == remaining,
{
    let cursor = saturate_to_u32(input.as_str().len());
    SuggestionRequest { input, cursor, start: saturate_to_u32(start), remaining }
}

} // verus!
