//! What the editor's protocol shows for the values of the analysis.

use vstd::prelude::*;
use crate::completion::{CompletionItem, CompletionItemKind, CompletionItemView, InsertText};
use crate::syntax_kind::SyntaxKind;

verus! {

/// A conversion to what the editor's protocol speaks of.
pub trait Conv {
    type Output;

    fn conv(self) -> Self::Output;
}

/// The kinds of symbol that the protocol knows, as far as syntax kinds lead to them.
#[derive(Debug, Clone, Copy, PartialEq, Eq, Structural)]
pub enum SymbolKind {
    Function,
    Struct,
    Enum,
    Interface,
    Module,
    TypeParameter,
    Constant,
    Object,
    Variable,
}

/// The kind of symbol that the protocol shows for a node of kind `kind`.
pub open spec fn symbol_kind_of(kind: SyntaxKind) -> SymbolKind {
    match kind {
        SyntaxKind::FN_DEF => SymbolKind::Function,
        SyntaxKind::STRUCT_DEF => SymbolKind::Struct,
        SyntaxKind::ENUM_DEF => SymbolKind::Enum,
        SyntaxKind::TRAIT_DEF => SymbolKind::Interface,
        SyntaxKind::MODULE => SymbolKind::Module,
        SyntaxKind::TYPE_DEF => SymbolKind::TypeParameter,
        SyntaxKind::STATIC_DEF => SymbolKind::Constant,
        SyntaxKind::CONST_DEF => SymbolKind::Constant,
        SyntaxKind::IMPL_BLOCK => SymbolKind::Object,
        _ => SymbolKind::Variable,
    }
}

impl Conv for SyntaxKind {
    type Output = SymbolKind;

    fn conv(self) -> (r: SymbolKind)
        ensures
            r == symbol_kind_of(self),
    {
        match self {
            SyntaxKind::FN_DEF => SymbolKind::Function,
            SyntaxKind::STRUCT_DEF => SymbolKind::Struct,
            SyntaxKind::ENUM_DEF => SymbolKind::Enum,
            SyntaxKind::TRAIT_DEF => SymbolKind::Interface,
            SyntaxKind::MODULE => SymbolKind::Module,
            SyntaxKind::TYPE_DEF => SymbolKind::TypeParameter,
            SyntaxKind::STATIC_DEF => SymbolKind::Constant,
            SyntaxKind::CONST_DEF => SymbolKind::Constant,
            SyntaxKind::IMPL_BLOCK => SymbolKind::Object,
            _ => SymbolKind::Variable,
        }
    }
}

/// The kinds of completion that the protocol knows, as far as the
/// completions of this library lead to them.
#[derive(Debug, Clone, Copy, PartialEq, Eq, Structural)]
pub enum ProtocolCompletionKind {
    Keyword,
    Snippet,
    Module,
    Function,
    Struct,
    Enum,
    EnumMember,
    Variable,
    Field,
}

/// The kind that the protocol shows for a completion of kind `kind`.
pub open spec fn protocol_kind_of(kind: CompletionItemKind) -> ProtocolCompletionKind {
    match kind {
        CompletionItemKind::Keyword => ProtocolCompletionKind::Keyword,
        CompletionItemKind::Snippet => ProtocolCompletionKind::Snippet,
        CompletionItemKind::Module => ProtocolCompletionKind::Module,
        CompletionItemKind::Function => ProtocolCompletionKind::Function,
        CompletionItemKind::Struct => ProtocolCompletionKind::Struct,
        CompletionItemKind::Enum => ProtocolCompletionKind::Enum,
        CompletionItemKind::EnumVariant => ProtocolCompletionKind::EnumMember,
        CompletionItemKind::Binding => ProtocolCompletionKind::Variable,
        CompletionItemKind::Field => ProtocolCompletionKind::Field,
    }
}

impl Conv for CompletionItemKind {
    type Output = ProtocolCompletionKind;

    fn conv(self) -> (r: ProtocolCompletionKind)
        ensures
            r == protocol_kind_of(self),
    {
        match self {
            CompletionItemKind::Keyword => ProtocolCompletionKind::Keyword,
            CompletionItemKind::Snippet => ProtocolCompletionKind::Snippet,
            CompletionItemKind::Module => ProtocolCompletionKind::Module,
            CompletionItemKind::Function => ProtocolCompletionKind::Function,
            CompletionItemKind::Struct => ProtocolCompletionKind::Struct,
            CompletionItemKind::Enum => ProtocolCompletionKind::Enum,
            CompletionItemKind::EnumVariant => ProtocolCompletionKind::EnumMember,
            CompletionItemKind::Binding => ProtocolCompletionKind::Variable,
            CompletionItemKind::Field => ProtocolCompletionKind::Field,
        }
    }
}

/// How the protocol is to read the text that a completion inserts.
#[derive(Debug, Clone, Copy, PartialEq, Eq, Structural)]
pub enum InsertTextFormat {
    PlainText,
    Snippet,
}

/// A completion as the protocol has it.
#[derive(Debug, PartialEq, Eq)]
pub struct ProtocolCompletionItem {
    pub label: String,
    pub filter_text: Option<String>,
    pub kind: Option<ProtocolCompletionKind>,
    pub insert_text: Option<String>,
    pub insert_text_format: Option<InsertTextFormat>,
}

/// A completion of the protocol as a mathematical value.
pub struct ProtocolCompletionItemView {
    pub label: Seq<char>,
    pub filter_text: Option<Seq<char>>,
    pub kind: Option<ProtocolCompletionKind>,
    pub insert_text: Option<Seq<char>>,
    pub insert_text_format: Option<InsertTextFormat>,
}

impl View for ProtocolCompletionItem {
    type V = ProtocolCompletionItemView;

    open spec fn view(&self) -> ProtocolCompletionItemView {
        ProtocolCompletionItemView {
            label: self.label@,
            filter_text: crate::completion::opt_text(self.filter_text),
            kind: self.kind,
            insert_text: crate::completion::opt_text(self.insert_text),
            insert_text_format: self.insert_text_format,
        }
    }
}

/// The completion of the protocol for a completion of this library: it is
/// filtered by the lookup text, and inserts the snippet as a snippet or
/// else the label as plain text.
pub open spec fn protocol_item_of(item: CompletionItemView) -> ProtocolCompletionItemView {
    ProtocolCompletionItemView {
        label: item.label,
        filter_text: Some(item.lookup_text()),
        kind: match item.kind {
            Some(k) => Some(protocol_kind_of(k)),
            None => None,
        },
        insert_text: match item.snippet {
            Some(s) => Some(s),
            None => Some(item.label),
        },
        insert_text_format: match item.snippet {
            Some(_) => Some(InsertTextFormat::Snippet),
            None => Some(InsertTextFormat::PlainText),
        },
    }
}

impl Conv for CompletionItem {
    type Output = ProtocolCompletionItem;

    fn conv(self) -> (r: ProtocolCompletionItem)
        ensures
            r@ == protocol_item_of(self@),
    {
        let kind = match self.kind() {
            Some(it) => Some(it.conv()),
            None => None,
        };
        let (insert_text, insert_text_format) = match self.insert_text() {
            InsertText::PlainText { text } => (Some(text), Some(InsertTextFormat::PlainText)),
            InsertText::Snippet { text } => (Some(text), Some(InsertTextFormat::Snippet)),
        };
        ProtocolCompletionItem {
            label: self.label().to_owned(),
            filter_text: Some(self.lookup().to_owned()),
            kind,
            insert_text,
            insert_text_format,
        }
    }
}

} // verus!
