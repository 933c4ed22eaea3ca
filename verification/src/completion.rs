//! Completions and the context of a completion request.

use vstd::prelude::*;
use crate::ast::AstNode;
use vstd::string::StringExecFns;
use crate::ast;
use crate::path::Path;
use crate::syntax::SyntaxNodeRef;

verus! {

/// Where a completion comes from.
#[derive(Debug, Clone, Copy, PartialEq, Eq, Structural)]
pub enum CompletionKind {
    /// Parser-based keyword completion.
    Keyword,
    /// Your usual "complete all valid identifiers".
    Reference,
    /// "Secret sauce" completions.
    Magic,
    Snippet,
}

/// What a completion stands for.
#[derive(Debug, Clone, Copy, PartialEq, Eq, Structural)]
pub enum CompletionItemKind {
    Snippet,
    Keyword,
    Module,
    Function,
    Struct,
    Enum,
    EnumVariant,
    Binding,
    Field,
}

/// The text that a completion inserts.
#[derive(Debug, PartialEq, Eq)]
pub enum InsertText {
    PlainText { text: String },
    Snippet { text: String },
}

/// The text that a completion inserts, as a mathematical value.
pub enum InsertTextView {
    PlainText { text: Seq<char> },
    Snippet { text: Seq<char> },
}

impl View for InsertText {
    type V = InsertTextView;

    open spec fn view(&self) -> InsertTextView {
        match self {
            InsertText::PlainText { text } => InsertTextView::PlainText { text: text@ },
            InsertText::Snippet { text } => InsertTextView::Snippet { text: text@ },
        }
    }
}

/// `CompletionItem` describes a single completion variant in the editor pop-up.
/// It is plain data. To construct a `CompletionItem`, use `new` method and
/// the `Builder` struct.
#[derive(Debug, PartialEq, Eq)]
pub struct CompletionItem {
    /// Used only internally in tests, to check only specific kind of
    /// completion.
    completion_kind: CompletionKind,
    label: String,
    lookup: Option<String>,
    snippet: Option<String>,
    kind: Option<CompletionItemKind>,
}

/// A completion as a mathematical value.
pub struct CompletionItemView {
    pub completion_kind: CompletionKind,
    pub label: Seq<char>,
    pub lookup: Option<Seq<char>>,
    pub snippet: Option<Seq<char>>,
    pub kind: Option<CompletionItemKind>,
}

/// The view of a string that may be missing.
pub open spec fn opt_text(s: Option<String>) -> Option<Seq<char>> {
    match s {
        Some(s) => Some(s@),
        None => None,
    }
}

impl View for CompletionItem {
    type V = CompletionItemView;

    closed spec fn view(&self) -> CompletionItemView {
        CompletionItemView {
            completion_kind: self.completion_kind,
            label: self.label@,
            lookup: opt_text(self.lookup),
            snippet: opt_text(self.snippet),
            kind: self.kind,
        }
    }
}

impl CompletionItemView {
    /// What string is used for filtering: the lookup text, or else the label.
    pub open spec fn lookup_text(self) -> Seq<char> {
        match self.lookup {
            Some(l) => l,
            None => self.label,
        }
    }

    /// What is inserted: the snippet, or else the label as plain text.
    pub open spec fn insert_text(self) -> InsertTextView {
        match self.snippet {
            None => InsertTextView::PlainText { text: self.label },
            Some(s) => InsertTextView::Snippet { text: s },
        }
    }
}

impl CompletionItem {
    pub fn new(completion_kind: CompletionKind, label: &str) -> (r: Builder)
        ensures
            r@ == (CompletionItemView { completion_kind, label: label@, lookup: None, snippet: None, kind: None }),
    {
        Builder { completion_kind, label: String::from_str(label), lookup: None, snippet: None, kind: None }
    }

    /// What user sees in pop-up in the UI.
    pub fn label(&self) -> (r: &str)
        ensures
            r@ == self@.label,
    {
        self.label.as_str()
    }

    /// What string is used for filtering.
    pub fn lookup(&self) -> (r: &str)
        ensures
            r@ == self@.lookup_text(),
    {
        match &self.lookup {
            Some(it) => it.as_str(),
            None => self.label.as_str(),
        }
    }

    /// What is inserted.
    pub fn insert_text(&self) -> (r: InsertText)
        ensures
            r@ == self@.insert_text(),
    {
        match &self.snippet {
            None => InsertText::PlainText { text: self.label.clone() },
            Some(it) => InsertText::Snippet { text: it.clone() },
        }
    }

    pub fn kind(&self) -> (r: Option<CompletionItemKind>)
        ensures
            r == self@.kind,
    {
        self.kind
    }

    /// The text that the completion is looked up by, if it has one of its own.
    pub fn own_lookup(&self) -> (r: Option<&str>)
        ensures
            r.is_some() == self@.lookup.is_some(),
            r matches Some(s) ==> Some(s@) == self@.lookup,
    {
        match &self.lookup {
            Some(it) => Some(it.as_str()),
            None => None,
        }
    }

    /// The snippet of the completion, if it has one.
    pub fn snippet(&self) -> (r: Option<&str>)
        ensures
            r.is_some() == self@.snippet.is_some(),
            r matches Some(s) ==> Some(s@) == self@.snippet,
    {
        match &self.snippet {
            Some(it) => Some(it.as_str()),
            None => None,
        }
    }

    /// Where the completion comes from.
    pub fn completion_kind(&self) -> (r: CompletionKind)
        ensures
            r == self@.completion_kind,
    {
        self.completion_kind
    }
}

/// A helper to make `CompletionItem`s.
#[must_use]
pub struct Builder {
    completion_kind: CompletionKind,
    label: String,
    lookup: Option<String>,
    snippet: Option<String>,
    kind: Option<CompletionItemKind>,
}

impl View for Builder {
    type V = CompletionItemView;

    closed spec fn view(&self) -> CompletionItemView {
        CompletionItemView {
            completion_kind: self.completion_kind,
            label: self.label@,
            lookup: opt_text(self.lookup),
            snippet: opt_text(self.snippet),
            kind: self.kind,
        }
    }
}

impl Builder {
    pub fn add_to(self, acc: &mut Completions)
        ensures
            final(acc)@ == old(acc)@.push(self@),
    {
        acc.add(self.build())
    }

    pub fn build(self) -> (r: CompletionItem)
        ensures
            r@ == self@,
    {
        CompletionItem {
            label: self.label,
            lookup: self.lookup,
            snippet: self.snippet,
            kind: self.kind,
            completion_kind: self.completion_kind,
        }
    }

    pub fn lookup_by(self, lookup: &str) -> (r: Builder)
        ensures
            r@ == (CompletionItemView { lookup: Some(lookup@), ..self@ }),
    {
        Builder {
            completion_kind: self.completion_kind,
            label: self.label,
            lookup: Some(String::from_str(lookup)),
            snippet: self.snippet,
            kind: self.kind,
        }
    }

    pub fn snippet(self, snippet: &str) -> (r: Builder)
        ensures
            r@ == (CompletionItemView { snippet: Some(snippet@), ..self@ }),
    {
        Builder {
            completion_kind: self.completion_kind,
            label: self.label,
            lookup: self.lookup,
            snippet: Some(String::from_str(snippet)),
            kind: self.kind,
        }
    }

    pub fn kind(self, kind: CompletionItemKind) -> (r: Builder)
        ensures
            r@ == (CompletionItemView { kind: Some(kind), ..self@ }),
    {
        Builder {
            completion_kind: self.completion_kind,
            label: self.label,
            lookup: self.lookup,
            snippet: self.snippet,
            kind: Some(kind),
        }
    }
}

/// Represents an in-progress set of completions being built.
#[derive(Debug)]
pub struct Completions {
    buf: Vec<CompletionItem>,
}

impl View for Completions {
    type V = Seq<CompletionItemView>;

    closed spec fn view(&self) -> Seq<CompletionItemView> {
        self.buf@.map_values(|c: CompletionItem| c@)
    }
}

impl Completions {
    /// No completions yet.
    pub fn new() -> (r: Completions)
        ensures
            r@.len() == 0,
    {
        Completions { buf: Vec::new() }
    }

    pub fn add(&mut self, item: CompletionItem)
        ensures
            final(self)@ == old(self)@.push(item@),
    {
        self.buf.push(item);
        assert(self@ =~= old(self)@.push(item@));
    }

    /// Adds the item, if there is one.
    pub fn add_all(&mut self, items: Option<CompletionItem>)
        ensures
            final(self)@ == (match items {
                Some(item) => old(self)@.push(item@),
                None => old(self)@,
            }),
    {
        match items {
            Some(item) => self.add(item),
            None => {},
        }
    }

    /// The completions gathered, in the order in which they were added.
    pub fn into_vec(self) -> (r: Vec<CompletionItem>)
        ensures
            r@.map_values(|c: CompletionItem| c@) == self@,
    {
        self.buf
    }

    /// The number of completions gathered.
    pub fn len(&self) -> (r: usize)
        ensures
            r == self@.len(),
    {
        self.buf.len()
    }
}

/// `CompletionContext` is created early during completion to figure out, where
/// exactly is the cursor, syntax-wise.
#[derive(Debug)]
pub struct CompletionContext<'a> {
    pub leaf: SyntaxNodeRef<'a>,
    pub function_syntax: Option<ast::FnDef<'a>>,
    pub use_item_syntax: Option<ast::UseItem<'a>>,
    pub path_prefix: Option<Path>,
    /// If this is a path like `bar`, `true`; for `foo::bar`, `false`.
    pub is_trivial_path: bool,
    /// `true` if we are a statement or a last expr in the block.
    pub can_be_stmt: bool,
    /// Something is typed at the "top" level, in module or impl/trait.
    pub is_new_item: bool,
    /// The receiver if this is a field or method access, i.e. writing something.<|>
    pub dot_receiver: Option<ast::Expr<'a>>,
    /// If this is a method call in particular, i.e. the () are already there.
    pub is_method_call: bool,
    /// The cursor comes right after an `if` with its block.
    pub after_if: bool,
}

impl<'a> CompletionContext<'a> {
    /// The nodes that the context holds are nodes of one well-formed tree.
    pub open spec fn wf(&self) -> bool {
        &&& self.leaf.wf()
        &&& self.function_syntax matches Some(f) ==> f.wf() && f.node().tree() == self.leaf.tree()
        &&& self.use_item_syntax matches Some(u) ==> u.wf()
    }
}

} // verus!
