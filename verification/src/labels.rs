use vstd::prelude::*;
use vstd::string::*;
use vstd::utf8::encode_utf8;

use crate::text::opt_string_view;
use crate::JuliaExtension;

verus! {

/// The kind of a completion the language server offers.
#[derive(Clone, Copy, Debug, PartialEq, Eq, Structural)]
pub enum CompletionKind {
    Text,
    Method,
    Function,
    Constructor,
    Field,
    Variable,
    Class,
    Interface,
    Module,
    Property,
    Unit,
    Value,
    Enum,
    Keyword,
    Snippet,
    Color,
    File,
    Reference,
    Folder,
    EnumMember,
    Constant,
    Struct,
    Event,
    Operator,
    TypeParameter,
    Other(i32),
}

/// The extra details of a completion's label.
pub struct CompletionLabelDetails {
    /// A detail shown right after the label, such as a type (`::Int`).
    pub detail: Option<String>,
    /// A description shown after the detail, such as `local` or `method`.
    pub description: Option<String>,
}

/// The parts of a completion that its label is made from.
pub struct Completion {
    /// The text of the completion.
    pub label: String,
    /// The extra details of the label.
    pub label_details: Option<CompletionLabelDetails>,
    /// The kind of the completion.
    pub kind: Option<CompletionKind>,
}

/// The kind of a symbol the language server reports.
#[derive(Clone, Copy, Debug, PartialEq, Eq, Structural)]
pub enum SymbolKind {
    File,
    Module,
    Namespace,
    Package,
    Class,
    Method,
    Property,
    Field,
    Constructor,
    Enum,
    Interface,
    Function,
    Variable,
    Constant,
    String,
    Number,
    Boolean,
    Array,
    Object,
    Key,
    Null,
    EnumMember,
    Struct,
    Event,
    Operator,
    TypeParameter,
    Other(i32),
}

/// A symbol the language server reports.
pub struct Symbol {
    /// The kind of the symbol.
    pub kind: SymbolKind,
    /// The name of the symbol.
    pub name: String,
}

/// A range of byte offsets into the code of a label.
#[derive(Clone, Copy, Debug, PartialEq, Eq, Structural)]
pub struct Range {
    /// The first offset of the range.
    pub start: u32,
    /// The offset just past the range.
    pub end: u32,
}

/// Text shown in a label, with the name of its highlight, if any.
pub struct CodeLabelSpanLiteral {
    /// The text to show.
    pub text: String,
    /// The highlight to show it with.
    pub highlight_name: Option<String>,
}

/// A part of a label: a range of its code, highlighted as code, or literal text.
pub enum CodeLabelSpan {
    /// A range of the code of the label.
    CodeRange(Range),
    /// Literal text.
    Literal(CodeLabelSpanLiteral),
}

/// A label for a completion or a symbol.
pub struct CodeLabel {
    /// The code that the label shows.
    pub code: String,
    /// The parts of the label, in order.
    pub spans: Vec<CodeLabelSpan>,
    /// The range of the code that filtering matches against.
    pub filter_range: Range,
}

/// A span as values: a code range, or literal text and its highlight.
pub enum SpanView {
    CodeRange(u32, u32),
    Literal(Seq<char>, Option<Seq<char>>),
}

/// A label as values: its code, its spans, and its filter range.
pub struct LabelView {
    pub code: Seq<char>,
    pub spans: Seq<SpanView>,
    pub filter_range: (u32, u32),
}

impl View for CodeLabelSpan {
    type V = SpanView;

    open spec fn view(&self) -> SpanView {
        match self {
            CodeLabelSpan::CodeRange(range) => SpanView::CodeRange(range.start, range.end),
            CodeLabelSpan::Literal(literal) => SpanView::Literal(
                literal.text@,
                match literal.highlight_name {
                    Some(name) => Some(name@),
                    None => None,
                },
            ),
        }
    }
}

impl View for CodeLabel {
    type V = LabelView;

    open spec fn view(&self) -> LabelView {
        LabelView {
            code: self.code@,
            spans: self.spans@.map_values(|span: CodeLabelSpan| span@),
            filter_range: (self.filter_range.start, self.filter_range.end),
        }
    }
}

/// The length in bytes of the UTF-8 encoding of `text`, as a `u32`.
pub open spec fn byte_len(text: Seq<char>) -> u32 {
    (encode_utf8(text).len() as usize) as u32
}

/// Whether `text` names a macro: it starts with `@`.
pub open spec fn is_macro_name(text: Seq<char>) -> bool {
    text.len() > 0 && text[0] == '@'
}

/// The span that shows the label of a completion of the given kind: kinds
/// with an explicit highlight get it, a missing kind gets none, and other
/// kinds are highlighted as code.
pub open spec fn completion_label_span(label: Seq<char>, kind: Option<CompletionKind>) -> SpanView {
    match kind {
        Some(CompletionKind::Struct) => SpanView::Literal(label, Some("type"@)),
        Some(CompletionKind::TypeParameter) => SpanView::Literal(label, Some("type"@)),
        Some(CompletionKind::Module) => SpanView::Literal(label, Some("type"@)),
        Some(CompletionKind::Function) => SpanView::Literal(
            label,
            Some(
                if is_macro_name(label) {
                    "function.macro"@
                } else {
                    "function.call"@
                },
            ),
        ),
        Some(CompletionKind::Constant) => SpanView::Literal(label, Some("constant"@)),
        Some(CompletionKind::Variable) => SpanView::Literal(label, Some("variable"@)),
        Some(CompletionKind::Keyword) => SpanView::Literal(label, Some("keyword"@)),
        None => SpanView::Literal(label, None),
        _ => SpanView::CodeRange(0, byte_len(label)),
    }
}

/// The spans of a completion's details: the detail, then the description
/// after a space, both without highlight.
pub open spec fn detail_spans(detail: Option<Seq<char>>, description: Option<Seq<char>>) -> Seq<
    SpanView,
> {
    let with_detail = match detail {
        Some(d) => seq![SpanView::Literal(d, None)],
        None => Seq::empty(),
    };
    match description {
        Some(d) => with_detail.push(SpanView::Literal(seq![' '] + d, None)),
        None => with_detail,
    }
}

/// The detail and the description of a completion's label.
pub open spec fn completion_details(completion: &Completion) -> (Option<Seq<char>>, Option<
    Seq<char>,
>) {
    match completion.label_details {
        Some(details) => (opt_string_view(details.detail), opt_string_view(details.description)),
        None => (None, None),
    }
}

/// The label of a completion.
pub open spec fn completion_label(completion: &Completion) -> LabelView {
    let label = completion.label@;
    let (detail, description) = completion_details(completion);
    LabelView {
        code: label,
        spans: seq![completion_label_span(label, completion.kind)] + detail_spans(
            detail,
            description,
        ),
        filter_range: (0, byte_len(label)),
    }
}

/// The keyword shown before a symbol's name, and the highlight of the name:
/// JETLS reports modules, functions, structs, fields, arguments (objects),
/// abstract types (interfaces), primitive types (classes), constants,
/// variables, `let` blocks (namespaces) and type parameters.
pub open spec fn symbol_decoration(kind: SymbolKind, name: Seq<char>) -> (Seq<char>, Seq<char>) {
    match kind {
        SymbolKind::Module => ("module "@, "type"@),
        SymbolKind::Struct => ("struct "@, "type"@),
        SymbolKind::Interface => ("abstract type "@, "type"@),
        SymbolKind::Class => ("primitive type "@, "type"@),
        SymbolKind::Function => if is_macro_name(name) {
            ("macro "@, "function.macro"@)
        } else {
            ("function "@, "function"@)
        },
        SymbolKind::Constant => ("const "@, "constant"@),
        SymbolKind::Variable => (Seq::empty(), "variable"@),
        SymbolKind::Object => (Seq::empty(), "variable"@),
        SymbolKind::Field => (Seq::empty(), "property"@),
        SymbolKind::Namespace => ("let "@, "variable"@),
        SymbolKind::TypeParameter => (Seq::empty(), "type"@),
        _ => (Seq::empty(), Seq::empty()),
    }
}

/// The label of a symbol: its keyword as a keyword span, then its name with
/// the name's highlight; filtering matches the name only.
pub open spec fn symbol_label(symbol: &Symbol) -> LabelView {
    let name = symbol.name@;
    let (prefix, highlight) = symbol_decoration(symbol.kind, name);
    let code = prefix + name;
    let keyword_spans = if prefix.len() == 0 {
        Seq::empty()
    } else {
        seq![SpanView::Literal(prefix, Some("keyword"@))]
    };
    let name_span = if highlight.len() == 0 {
        SpanView::Literal(name, None)
    } else {
        SpanView::Literal(name, Some(highlight))
    };
    LabelView {
        code,
        spans: keyword_spans.push(name_span),
        filter_range: (byte_len(prefix), byte_len(code)),
    }
}

/// The text of a span, for literal spans.
pub open spec fn span_text(span: SpanView) -> Seq<char> {
    match span {
        SpanView::Literal(text, _) => text,
        SpanView::CodeRange(_, _) => Seq::empty(),
    }
}

/// A literal span with the given text and highlight.
fn literal(text: &str, highlight_name: Option<&str>) -> (span: CodeLabelSpan)
    ensures
        span@ == SpanView::Literal(
            text@,
            match highlight_name {
                Some(name) => Some(name@),
                None => None,
            },
        ),
{
    CodeLabelSpan::Literal(
        CodeLabelSpanLiteral {
            text: String::from_str(text),
            highlight_name: match highlight_name {
                Some(name) => Some(String::from_str(name)),
                None => None,
            },
        },
    )
}

/// Whether the text starts with `@`.
fn starts_with_at(text: &str) -> (at: bool)
    ensures
        at == is_macro_name(text@),
{
    !text.is_empty() && text.get_char(0) == '@'
}

impl JuliaExtension {
    /// The label of a completion: its text, highlighted by its kind, followed
    /// by its detail and description without highlight.
    pub fn label_for_completion_impl(completion: Completion) -> (label: Option<CodeLabel>)
        ensures
            label matches Some(l) && l@ == completion_label(&completion),
    {
        let ghost expected = completion_label(&completion);
        let label = completion.label.as_str();
        let label_len = #[verifier::truncate] (label.len() as u32);
        let label_span = match completion.kind {
            Some(CompletionKind::Struct) => literal(label, Some("type")),
            Some(CompletionKind::TypeParameter) => literal(label, Some("type")),
            Some(CompletionKind::Module) => literal(label, Some("type")),
            Some(CompletionKind::Function) => {
                if starts_with_at(label) {
                    literal(label, Some("function.macro"))
                } else {
                    literal(label, Some("function.call"))
                }
            },
            Some(CompletionKind::Constant) => literal(label, Some("constant")),
            Some(CompletionKind::Variable) => literal(label, Some("variable")),
            Some(CompletionKind::Keyword) => literal(label, Some("keyword")),
            None => literal(label, None),
            _ => CodeLabelSpan::CodeRange(Range { start: 0, end: label_len }),
        };
        assert(label_span@ == completion_label_span(label@, completion.kind));
        let mut spans: Vec<CodeLabelSpan> = Vec::new();
        spans.push(label_span);
        let ghost detail = completion_details(&completion).0;
        let ghost description = completion_details(&completion).1;
        let ghost head = seq![completion_label_span(label@, completion.kind)];
        assert(spans@.map_values(|span: CodeLabelSpan| span@) =~= head);
        match &completion.label_details {
            Some(details) => {
                match &details.detail {
                    Some(detail) => spans.push(literal(detail.as_str(), None)),
                    None => {},
                }
                assert(spans@.map_values(|span: CodeLabelSpan| span@) =~= head + detail_spans(
                    detail,
                    None,
                ));
                match &details.description {
                    Some(description) => {
                        let mut text = String::new();
                        text.push(' ');
                        text.append(description.as_str());
                        assert(text@ =~= seq![' '] + description@);
                        spans.push(literal(text.as_str(), None));
                    },
                    None => {},
                }
            },
            None => {},
        }
        assert(spans@.map_values(|span: CodeLabelSpan| span@) =~= head + detail_spans(
            detail,
            description,
        ));
        let code = completion.label.clone();
        let result = CodeLabel { code, spans, filter_range: Range { start: 0, end: label_len } };
        assert(result@.spans =~= expected.spans);
        Some(result)
    }

    /// The label of a symbol: the keyword of its kind, then its name
    /// highlighted by its kind. Filtering matches the name only.
    pub fn label_for_symbol_impl(symbol: Symbol) -> (label: Option<CodeLabel>)
        ensures
            label matches Some(l) && l@ == symbol_label(&symbol),
    {
        let ghost expected = symbol_label(&symbol);
        let name = symbol.name.as_str();
        let (prefix, name_highlight, has_prefix, has_highlight): (&str, &str, bool, bool) =
            match symbol.kind {
            SymbolKind::Module => ("module ", "type", true, true),
            SymbolKind::Struct => ("struct ", "type", true, true),
            SymbolKind::Interface => ("abstract type ", "type", true, true),
            SymbolKind::Class => ("primitive type ", "type", true, true),
            SymbolKind::Function => {
                if starts_with_at(name) {
                    ("macro ", "function.macro", true, true)
                } else {
                    ("function ", "function", true, true)
                }
            },
            SymbolKind::Constant => ("const ", "constant", true, true),
            SymbolKind::Variable => ("", "variable", false, true),
            SymbolKind::Object => ("", "variable", false, true),
            SymbolKind::Field => ("", "property", false, true),
            SymbolKind::Namespace => ("let ", "variable", true, true),
            SymbolKind::TypeParameter => ("", "type", false, true),
            _ => ("", "", false, false),
        };
        proof {
            reveal_strlit("");
            reveal_strlit("module ");
            reveal_strlit("struct ");
            reveal_strlit("abstract type ");
            reveal_strlit("primitive type ");
            reveal_strlit("macro ");
            reveal_strlit("function ");
            reveal_strlit("const ");
            reveal_strlit("let ");
            reveal_strlit("type");
            reveal_strlit("function.macro");
            reveal_strlit("function");
            reveal_strlit("constant");
            reveal_strlit("variable");
            reveal_strlit("property");
        }
        assert(has_prefix == (prefix@.len() > 0));
        assert(has_highlight == (name_highlight@.len() > 0));
        assert((prefix@, name_highlight@) == symbol_decoration(symbol.kind, name@));
        let mut code = String::from_str(prefix);
        code.append(name);
        let code_len = #[verifier::truncate] (code.as_str().len() as u32);
        let prefix_len = #[verifier::truncate] (prefix.len() as u32);
        let mut spans: Vec<CodeLabelSpan> = Vec::new();
        if has_prefix {
            spans.push(literal(prefix, Some("keyword")));
        }
        if has_highlight {
            spans.push(literal(name, Some(name_highlight)));
        } else {
            spans.push(literal(name, None));
        }
        let result = CodeLabel {
            code,
            spans,
            filter_range: Range { start: prefix_len, end: code_len },
        };
        assert(result@.spans =~= expected.spans);
        Some(result)
    }
}

/// The literal spans of a symbol's label spell out its code: the keyword,
/// then the name.
pub proof fn law_symbol_spans_spell_the_code(symbol: &Symbol)
    ensures
        ({
            let label = symbol_label(symbol);
            label.spans.len() == 1 ==> span_text(label.spans[0]) == label.code
        }),
        ({
            let label = symbol_label(symbol);
            label.spans.len() == 2 ==> span_text(label.spans[0]) + span_text(label.spans[1])
                == label.code
        }),
{
    let (prefix, _) = symbol_decoration(symbol.kind, symbol.name@);
    if prefix.len() == 0 {
        assert(prefix + symbol.name@ =~= symbol.name@);
    }
}


/// Each symbol is labelled with the Julia keyword that declares its kind, as a
/// `keyword` span, followed by its name: `module` for modules, `struct` for
/// structs, `abstract type` for interfaces and `primitive type` for classes
/// (their names highlighted as types), `macro` for functions whose name starts
/// with `@` and `function` for the others, `const` for constants, and `let` for
/// namespaces (its name highlighted as a variable). Filtering matches the name.
pub proof fn law_symbols_carry_their_julia_keyword(symbol: &Symbol)
    ensures
        ({
            let label = symbol_label(symbol);
            let name = symbol.name@;
            let is_macro = name.len() > 0 && name[0] == '@';
            &&& symbol.kind is Module ==> label.code == "module "@ + name && label.spans == seq![
                SpanView::Literal("module "@, Some("keyword"@)),
                SpanView::Literal(name, Some("type"@)),
            ] && label.filter_range == (byte_len("module "@), byte_len(label.code))
            &&& symbol.kind is Struct ==> label.code == "struct "@ + name && label.spans == seq![
                SpanView::Literal("struct "@, Some("keyword"@)),
                SpanView::Literal(name, Some("type"@)),
            ] && label.filter_range == (byte_len("struct "@), byte_len(label.code))
            &&& symbol.kind is Interface ==> label.code == "abstract type "@ + name && label.spans
                == seq![
                SpanView::Literal("abstract type "@, Some("keyword"@)),
                SpanView::Literal(name, Some("type"@)),
            ] && label.filter_range == (byte_len("abstract type "@), byte_len(label.code))
            &&& symbol.kind is Class ==> label.code == "primitive type "@ + name && label.spans
                == seq![
                SpanView::Literal("primitive type "@, Some("keyword"@)),
                SpanView::Literal(name, Some("type"@)),
            ] && label.filter_range == (byte_len("primitive type "@), byte_len(label.code))
            &&& (symbol.kind is Function && is_macro) ==> label.code == "macro "@ + name
                && label.spans == seq![
                SpanView::Literal("macro "@, Some("keyword"@)),
                SpanView::Literal(name, Some("function.macro"@)),
            ] && label.filter_range == (byte_len("macro "@), byte_len(label.code))
            &&& (symbol.kind is Function && !is_macro) ==> label.code == "function "@ + name
                && label.spans == seq![
                SpanView::Literal("function "@, Some("keyword"@)),
                SpanView::Literal(name, Some("function"@)),
            ] && label.filter_range == (byte_len("function "@), byte_len(label.code))
            &&& symbol.kind is Constant ==> label.code == "const "@ + name && label.spans == seq![
                SpanView::Literal("const "@, Some("keyword"@)),
                SpanView::Literal(name, Some("constant"@)),
            ] && label.filter_range == (byte_len("const "@), byte_len(label.code))
            &&& symbol.kind is Namespace ==> label.code == "let "@ + name && label.spans == seq![
                SpanView::Literal("let "@, Some("keyword"@)),
                SpanView::Literal(name, Some("variable"@)),
            ] && label.filter_range == (byte_len("let "@), byte_len(label.code))
        }),
{
    reveal_strlit("module ");
    reveal_strlit("struct ");
    reveal_strlit("abstract type ");
    reveal_strlit("primitive type ");
    reveal_strlit("macro ");
    reveal_strlit("function ");
    reveal_strlit("const ");
    reveal_strlit("let ");
    reveal_strlit("type");
    reveal_strlit("function.macro");
    reveal_strlit("function");
    reveal_strlit("constant");
    reveal_strlit("variable");
    let label = symbol_label(symbol);
    let (prefix, highlight) = symbol_decoration(symbol.kind, symbol.name@);
    if prefix.len() > 0 && highlight.len() > 0 {
        assert(label.spans =~= seq![
            SpanView::Literal(prefix, Some("keyword"@)),
            SpanView::Literal(symbol.name@, Some(highlight)),
        ]);
    }
}

/// A symbol of a kind without a keyword is labelled by its name alone, in one
/// span highlighted as a variable for variables and objects, as a property for
/// fields, as a type for type parameters, and not at all for the other kinds;
/// filtering matches the whole name.
pub proof fn law_symbols_without_keyword_show_their_name(symbol: &Symbol)
    ensures
        ({
            let label = symbol_label(symbol);
            let name = symbol.name@;
            let plain = !(symbol.kind is Module || symbol.kind is Struct || symbol.kind is Interface
                || symbol.kind is Class || symbol.kind is Function || symbol.kind is Constant
                || symbol.kind is Namespace || symbol.kind is Variable || symbol.kind is Object
                || symbol.kind is Field || symbol.kind is TypeParameter);
            &&& (symbol.kind is Variable || symbol.kind is Object) ==> label.spans == seq![
                SpanView::Literal(name, Some("variable"@)),
            ]
            &&& symbol.kind is Field ==> label.spans == seq![SpanView::Literal(name, Some("property"@))]
            &&& symbol.kind is TypeParameter ==> label.spans == seq![
                SpanView::Literal(name, Some("type"@)),
            ]
            &&& plain ==> label.spans == seq![SpanView::Literal(name, None)]
            &&& (plain || symbol.kind is Variable || symbol.kind is Object || symbol.kind is Field
                || symbol.kind is TypeParameter) ==> label.code == name && label.filter_range == (
                0u32,
                byte_len(name),
            )
        }),
{
    reveal_strlit("variable");
    reveal_strlit("property");
    reveal_strlit("type");
    let label = symbol_label(symbol);
    let name = symbol.name@;
    let (prefix, highlight) = symbol_decoration(symbol.kind, name);
    if prefix.len() == 0 {
        assert(prefix + name =~= name);
        assert(encode_utf8(prefix) =~= Seq::<u8>::empty());
        if highlight.len() > 0 {
            assert(label.spans =~= seq![SpanView::Literal(name, Some(highlight))]);
        } else {
            assert(label.spans =~= seq![SpanView::Literal(name, None)]);
        }
    }
}

/// A completion is labelled by its text, filtered over the whole text. A
/// completion of a highlighted kind is one literal span of its text highlighted
/// by the name of that kind: `type` for structs, type parameters and modules,
/// `function.macro` for functions whose name starts with `@` and
/// `function.call` for the others, `constant` for constants, `variable` for
/// variables and `keyword` for keywords. A completion of another kind is shown
/// as a code range over its text, and one of no kind without highlight. Its
/// detail follows, then a space and its description, both without highlight.
pub proof fn law_completions_are_highlighted_by_kind(completion: &Completion)
    ensures
        ({
            let label = completion_label(completion);
            let first = label.spans[0];
            let text = completion.label@;
            let is_macro = text.len() > 0 && text[0] == '@';
            &&& label.code == text
            &&& label.filter_range == (0u32, byte_len(text))
            &&& completion.kind matches Some(CompletionKind::Struct) ==> first == SpanView::Literal(
                text,
                Some("type"@),
            )
            &&& completion.kind matches Some(CompletionKind::TypeParameter) ==> first
                == SpanView::Literal(text, Some("type"@))
            &&& completion.kind matches Some(CompletionKind::Module) ==> first == SpanView::Literal(
                text,
                Some("type"@),
            )
            &&& (completion.kind matches Some(CompletionKind::Function) && is_macro) ==> first
                == SpanView::Literal(text, Some("function.macro"@))
            &&& (completion.kind matches Some(CompletionKind::Function) && !is_macro) ==> first
                == SpanView::Literal(text, Some("function.call"@))
            &&& completion.kind matches Some(CompletionKind::Constant) ==> first
                == SpanView::Literal(text, Some("constant"@))
            &&& completion.kind matches Some(CompletionKind::Variable) ==> first
                == SpanView::Literal(text, Some("variable"@))
            &&& completion.kind matches Some(CompletionKind::Keyword) ==> first
                == SpanView::Literal(text, Some("keyword"@))
            &&& completion.kind is None ==> first == SpanView::Literal(text, None)
            &&& (completion.kind matches Some(k) && !(k is Struct || k is TypeParameter
                || k is Module || k is Function || k is Constant || k is Variable || k is Keyword))
                ==> first == SpanView::CodeRange(0, byte_len(text))
        }),
        completion.label_details is None ==> completion_label(completion).spans.len() == 1,
        completion.label_details matches Some(details) ==> {
            let spans = completion_label(completion).spans;
            let rest = spans.subrange(1, spans.len() as int);
            &&& details.detail matches Some(d) ==> rest[0] == SpanView::Literal(d@, None)
            &&& details.description matches Some(d) ==> rest.last() == SpanView::Literal(
                seq![' '] + d@,
                None,
            )
            &&& rest.len() == (if details.detail is Some {
                1int
            } else {
                0int
            }) + (if details.description is Some {
                1int
            } else {
                0int
            })
        },
{
    let (detail, description) = completion_details(completion);
    if completion.label_details is None {
        assert(detail is None && description is None);
    }
    let spans = completion_label(completion).spans;
    assert(spans.subrange(1, spans.len() as int) =~= detail_spans(detail, description));
}

} // verus!
