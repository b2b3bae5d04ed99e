//! Highlight classes: what the syntax highlighter calls a stretch of source,
//! the colour each class is drawn in, and how the highlighter's events become
//! one class per byte.

use vstd::prelude::*;
use vstd::string::*;
use crate::color::Rgb;

verus! {

/// The class of a piece of source text.
#[derive(PartialEq, Eq, Debug, Clone, Copy, Structural)]
pub enum Type {
    /// Plain text, in no class.
    Plain,
    /// The class `attribute`.
    Attribute,
    /// The class `boolean`.
    Boolean,
    /// The class `carriage-return`.
    CarriageReturn,
    /// The class `comment`.
    Comment,
    /// The class `comment.documentation`.
    CommentDocumentation,
    /// The class `constant`.
    Constant,
    /// The class `constant.builtin`.
    ConstantBuiltin,
    /// The class `constructor`.
    Constructor,
    /// The class `constructor.builtin`.
    ConstructorBuiltin,
    /// The class `embedded`.
    Embedded,
    /// The class `error`.
    Error,
    /// The class `escape`.
    Escape,
    /// The class `function`.
    Function,
    /// The class `function.builtin`.
    FunctionBuiltin,
    /// The class `keyword`.
    Keyword,
    /// The class `markup`.
    Markup,
    /// The class `markup.bold`.
    MarkupBold,
    /// The class `markup.heading`.
    MarkupHeading,
    /// The class `markup.italic`.
    MarkupItalic,
    /// The class `markup.link`.
    MarkupLink,
    /// The class `markup.link.url`.
    MarkupLinkUrl,
    /// The class `markup.list`.
    MarkupList,
    /// The class `markup.list.checked`.
    MarkupListChecked,
    /// The class `markup.list.numbered`.
    MarkupListNumbered,
    /// The class `markup.list.unchecked`.
    MarkupListUnchecked,
    /// The class `markup.list.unnumbered`.
    MarkupListUnnumbered,
    /// The class `markup.quote`.
    MarkupQuote,
    /// The class `markup.raw`.
    MarkupRaw,
    /// The class `markup.raw.block`.
    MarkupRawBlock,
    /// The class `markup.raw.inline`.
    MarkupRawInline,
    /// The class `markup.strikethrough`.
    MarkupStrikethrough,
    /// The class `module`.
    Module,
    /// The class `number`.
    Number,
    /// The class `operator`.
    Operator,
    /// The class `property`.
    Property,
    /// The class `property.builtin`.
    PropertyBuiltin,
    /// The class `punctuation`.
    Punctuation,
    /// The class `punctuation.bracket`.
    PunctuationBracket,
    /// The class `punctuation.delimiter`.
    PunctuationDelimiter,
    /// The class `punctuation.special`.
    PunctuationSpecial,
    /// The class `string`.
    String,
    /// The class `string.escape`.
    StringEscape,
    /// The class `string.regexp`.
    StringRegexp,
    /// The class `string.special`.
    StringSpecial,
    /// The class `string.special.symbol`.
    StringSpecialSymbol,
    /// The class `tag`.
    Tag,
    /// The class `type`.
    Type,
    /// The class `type.builtin`.
    TypeBuiltin,
    /// The class `variable`.
    Variable,
    /// The class `variable.builtin`.
    VariableBuiltin,
    /// The class `variable.member`.
    VariableMember,
    /// The class `variable.parameter`.
    VariableParameter,
}

/// How many classes the highlighter is told about.
pub const CLASS_COUNT: usize = 52;

/// The colour that each class is drawn in.
pub open spec fn color_of(t: Type) -> Rgb {
    match t {
        Type::Plain => Rgb(220, 138, 120),
        Type::Attribute => Rgb(221, 120, 120),
        Type::Boolean => Rgb(234, 118, 203),
        Type::CarriageReturn => Rgb(136, 57, 239),
        Type::Comment => Rgb(92, 95, 119),
        Type::CommentDocumentation => Rgb(92, 95, 119),
        Type::Constant => Rgb(210, 15, 57),
        Type::ConstantBuiltin => Rgb(210, 15, 57),
        Type::Constructor => Rgb(234, 118, 203),
        Type::ConstructorBuiltin => Rgb(234, 118, 203),
        Type::Embedded => Rgb(23, 146, 153),
        Type::Error => Rgb(114, 135, 253),
        Type::Escape => Rgb(32, 159, 181),
        Type::Function => Rgb(223, 142, 29),
        Type::FunctionBuiltin => Rgb(223, 142, 29),
        Type::Keyword => Rgb(0, 255, 0),
        Type::Markup => Rgb(0, 0, 0),
        Type::MarkupBold => Rgb(0, 0, 0),
        Type::MarkupHeading => Rgb(0, 0, 0),
        Type::MarkupItalic => Rgb(0, 0, 0),
        Type::MarkupLink => Rgb(0, 0, 0),
        Type::MarkupLinkUrl => Rgb(0, 0, 0),
        Type::MarkupList => Rgb(0, 0, 0),
        Type::MarkupListChecked => Rgb(0, 0, 0),
        Type::MarkupListNumbered => Rgb(0, 0, 0),
        Type::MarkupListUnchecked => Rgb(0, 0, 0),
        Type::MarkupListUnnumbered => Rgb(0, 0, 0),
        Type::MarkupQuote => Rgb(0, 0, 0),
        Type::MarkupRaw => Rgb(0, 0, 0),
        Type::MarkupRawBlock => Rgb(0, 0, 0),
        Type::MarkupRawInline => Rgb(0, 0, 0),
        Type::MarkupStrikethrough => Rgb(0, 0, 0),
        Type::Module => Rgb(4, 165, 229),
        Type::Number => Rgb(114, 135, 253),
        Type::Operator => Rgb(32, 159, 181),
        Type::Property => Rgb(114, 135, 253),
        Type::PropertyBuiltin => Rgb(30, 102, 245),
        Type::Punctuation => Rgb(4, 165, 229),
        Type::PunctuationBracket => Rgb(4, 165, 229),
        Type::PunctuationDelimiter => Rgb(4, 165, 229),
        Type::PunctuationSpecial => Rgb(4, 165, 229),
        Type::String => Rgb(64, 160, 43),
        Type::StringEscape => Rgb(223, 142, 29),
        Type::StringRegexp => Rgb(223, 142, 29),
        Type::StringSpecial => Rgb(30, 102, 245),
        Type::StringSpecialSymbol => Rgb(210, 15, 57),
        Type::Tag => Rgb(220, 138, 120),
        Type::Type => Rgb(220, 138, 120),
        Type::TypeBuiltin => Rgb(220, 138, 120),
        Type::Variable => Rgb(23, 146, 153),
        Type::VariableBuiltin => Rgb(23, 146, 153),
        Type::VariableMember => Rgb(23, 146, 153),
        Type::VariableParameter => Rgb(23, 146, 153),
    }
}

/// The class that the highlighter numbers `index`: the classes in the
/// alphabetical order of their names, counted from zero. Numbers from
/// [`CLASS_COUNT`] on stand for no class.
pub open spec fn class_at(index: int) -> Option<Type> {
    if index == 0 {
        Some(Type::Attribute)
    } else if index == 1 {
        Some(Type::Boolean)
    } else if index == 2 {
        Some(Type::CarriageReturn)
    } else if index == 3 {
        Some(Type::Comment)
    } else if index == 4 {
        Some(Type::CommentDocumentation)
    } else if index == 5 {
        Some(Type::Constant)
    } else if index == 6 {
        Some(Type::ConstantBuiltin)
    } else if index == 7 {
        Some(Type::Constructor)
    } else if index == 8 {
        Some(Type::ConstructorBuiltin)
    } else if index == 9 {
        Some(Type::Embedded)
    } else if index == 10 {
        Some(Type::Error)
    } else if index == 11 {
        Some(Type::Escape)
    } else if index == 12 {
        Some(Type::Function)
    } else if index == 13 {
        Some(Type::FunctionBuiltin)
    } else if index == 14 {
        Some(Type::Keyword)
    } else if index == 15 {
        Some(Type::Markup)
    } else if index == 16 {
        Some(Type::MarkupBold)
    } else if index == 17 {
        Some(Type::MarkupHeading)
    } else if index == 18 {
        Some(Type::MarkupItalic)
    } else if index == 19 {
        Some(Type::MarkupLink)
    } else if index == 20 {
        Some(Type::MarkupLinkUrl)
    } else if index == 21 {
        Some(Type::MarkupList)
    } else if index == 22 {
        Some(Type::MarkupListChecked)
    } else if index == 23 {
        Some(Type::MarkupListNumbered)
    } else if index == 24 {
        Some(Type::MarkupListUnchecked)
    } else if index == 25 {
        Some(Type::MarkupListUnnumbered)
    } else if index == 26 {
        Some(Type::MarkupQuote)
    } else if index == 27 {
        Some(Type::MarkupRaw)
    } else if index == 28 {
        Some(Type::MarkupRawBlock)
    } else if index == 29 {
        Some(Type::MarkupRawInline)
    } else if index == 30 {
        Some(Type::MarkupStrikethrough)
    } else if index == 31 {
        Some(Type::Module)
    } else if index == 32 {
        Some(Type::Number)
    } else if index == 33 {
        Some(Type::Operator)
    } else if index == 34 {
        Some(Type::Property)
    } else if index == 35 {
        Some(Type::PropertyBuiltin)
    } else if index == 36 {
        Some(Type::Punctuation)
    } else if index == 37 {
        Some(Type::PunctuationBracket)
    } else if index == 38 {
        Some(Type::PunctuationDelimiter)
    } else if index == 39 {
        Some(Type::PunctuationSpecial)
    } else if index == 40 {
        Some(Type::String)
    } else if index == 41 {
        Some(Type::StringEscape)
    } else if index == 42 {
        Some(Type::StringRegexp)
    } else if index == 43 {
        Some(Type::StringSpecial)
    } else if index == 44 {
        Some(Type::StringSpecialSymbol)
    } else if index == 45 {
        Some(Type::Tag)
    } else if index == 46 {
        Some(Type::Type)
    } else if index == 47 {
        Some(Type::TypeBuiltin)
    } else if index == 48 {
        Some(Type::Variable)
    } else if index == 49 {
        Some(Type::VariableBuiltin)
    } else if index == 50 {
        Some(Type::VariableMember)
    } else if index == 51 {
        Some(Type::VariableParameter)
    } else {
        None
    }
}

/// The name under which the highlighter knows each class; plain text has
/// none.
pub open spec fn name_of(t: Type) -> Option<Seq<char>> {
    match t {
        Type::Plain => None,
        Type::Attribute => Some("attribute"@),
        Type::Boolean => Some("boolean"@),
        Type::CarriageReturn => Some("carriage-return"@),
        Type::Comment => Some("comment"@),
        Type::CommentDocumentation => Some("comment.documentation"@),
        Type::Constant => Some("constant"@),
        Type::ConstantBuiltin => Some("constant.builtin"@),
        Type::Constructor => Some("constructor"@),
        Type::ConstructorBuiltin => Some("constructor.builtin"@),
        Type::Embedded => Some("embedded"@),
        Type::Error => Some("error"@),
        Type::Escape => Some("escape"@),
        Type::Function => Some("function"@),
        Type::FunctionBuiltin => Some("function.builtin"@),
        Type::Keyword => Some("keyword"@),
        Type::Markup => Some("markup"@),
        Type::MarkupBold => Some("markup.bold"@),
        Type::MarkupHeading => Some("markup.heading"@),
        Type::MarkupItalic => Some("markup.italic"@),
        Type::MarkupLink => Some("markup.link"@),
        Type::MarkupLinkUrl => Some("markup.link.url"@),
        Type::MarkupList => Some("markup.list"@),
        Type::MarkupListChecked => Some("markup.list.checked"@),
        Type::MarkupListNumbered => Some("markup.list.numbered"@),
        Type::MarkupListUnchecked => Some("markup.list.unchecked"@),
        Type::MarkupListUnnumbered => Some("markup.list.unnumbered"@),
        Type::MarkupQuote => Some("markup.quote"@),
        Type::MarkupRaw => Some("markup.raw"@),
        Type::MarkupRawBlock => Some("markup.raw.block"@),
        Type::MarkupRawInline => Some("markup.raw.inline"@),
        Type::MarkupStrikethrough => Some("markup.strikethrough"@),
        Type::Module => Some("module"@),
        Type::Number => Some("number"@),
        Type::Operator => Some("operator"@),
        Type::Property => Some("property"@),
        Type::PropertyBuiltin => Some("property.builtin"@),
        Type::Punctuation => Some("punctuation"@),
        Type::PunctuationBracket => Some("punctuation.bracket"@),
        Type::PunctuationDelimiter => Some("punctuation.delimiter"@),
        Type::PunctuationSpecial => Some("punctuation.special"@),
        Type::String => Some("string"@),
        Type::StringEscape => Some("string.escape"@),
        Type::StringRegexp => Some("string.regexp"@),
        Type::StringSpecial => Some("string.special"@),
        Type::StringSpecialSymbol => Some("string.special.symbol"@),
        Type::Tag => Some("tag"@),
        Type::Type => Some("type"@),
        Type::TypeBuiltin => Some("type.builtin"@),
        Type::Variable => Some("variable"@),
        Type::VariableBuiltin => Some("variable.builtin"@),
        Type::VariableMember => Some("variable.member"@),
        Type::VariableParameter => Some("variable.parameter"@),
    }
}

impl Type {
    /// The colour that this class is drawn in.
    pub fn to_color(&self) -> (c: Rgb)
        ensures
            c == color_of(*self),
    {
        match self {
            Type::Plain => Rgb(220, 138, 120),
            Type::Attribute => Rgb(221, 120, 120),
            Type::Boolean => Rgb(234, 118, 203),
            Type::CarriageReturn => Rgb(136, 57, 239),
            Type::Comment => Rgb(92, 95, 119),
            Type::CommentDocumentation => Rgb(92, 95, 119),
            Type::Constant => Rgb(210, 15, 57),
            Type::ConstantBuiltin => Rgb(210, 15, 57),
            Type::Constructor => Rgb(234, 118, 203),
            Type::ConstructorBuiltin => Rgb(234, 118, 203),
            Type::Embedded => Rgb(23, 146, 153),
            Type::Error => Rgb(114, 135, 253),
            Type::Escape => Rgb(32, 159, 181),
            Type::Function => Rgb(223, 142, 29),
            Type::FunctionBuiltin => Rgb(223, 142, 29),
            Type::Keyword => Rgb(0, 255, 0),
            Type::Markup => Rgb(0, 0, 0),
            Type::MarkupBold => Rgb(0, 0, 0),
            Type::MarkupHeading => Rgb(0, 0, 0),
            Type::MarkupItalic => Rgb(0, 0, 0),
            Type::MarkupLink => Rgb(0, 0, 0),
            Type::MarkupLinkUrl => Rgb(0, 0, 0),
            Type::MarkupList => Rgb(0, 0, 0),
            Type::MarkupListChecked => Rgb(0, 0, 0),
            Type::MarkupListNumbered => Rgb(0, 0, 0),
            Type::MarkupListUnchecked => Rgb(0, 0, 0),
            Type::MarkupListUnnumbered => Rgb(0, 0, 0),
            Type::MarkupQuote => Rgb(0, 0, 0),
            Type::MarkupRaw => Rgb(0, 0, 0),
            Type::MarkupRawBlock => Rgb(0, 0, 0),
            Type::MarkupRawInline => Rgb(0, 0, 0),
            Type::MarkupStrikethrough => Rgb(0, 0, 0),
            Type::Module => Rgb(4, 165, 229),
            Type::Number => Rgb(114, 135, 253),
            Type::Operator => Rgb(32, 159, 181),
            Type::Property => Rgb(114, 135, 253),
            Type::PropertyBuiltin => Rgb(30, 102, 245),
            Type::Punctuation => Rgb(4, 165, 229),
            Type::PunctuationBracket => Rgb(4, 165, 229),
            Type::PunctuationDelimiter => Rgb(4, 165, 229),
            Type::PunctuationSpecial => Rgb(4, 165, 229),
            Type::String => Rgb(64, 160, 43),
            Type::StringEscape => Rgb(223, 142, 29),
            Type::StringRegexp => Rgb(223, 142, 29),
            Type::StringSpecial => Rgb(30, 102, 245),
            Type::StringSpecialSymbol => Rgb(210, 15, 57),
            Type::Tag => Rgb(220, 138, 120),
            Type::Type => Rgb(220, 138, 120),
            Type::TypeBuiltin => Rgb(220, 138, 120),
            Type::Variable => Rgb(23, 146, 153),
            Type::VariableBuiltin => Rgb(23, 146, 153),
            Type::VariableMember => Rgb(23, 146, 153),
            Type::VariableParameter => Rgb(23, 146, 153),
        }
    }

    /// The class that the highlighter numbers `index`; see [`class_at`].
    pub fn from_index(index: usize) -> (t: Option<Type>)
        ensures
            t == class_at(index as int),
    {
        match index {
            0 => Some(Type::Attribute),
            1 => Some(Type::Boolean),
            2 => Some(Type::CarriageReturn),
            3 => Some(Type::Comment),
            4 => Some(Type::CommentDocumentation),
            5 => Some(Type::Constant),
            6 => Some(Type::ConstantBuiltin),
            7 => Some(Type::Constructor),
            8 => Some(Type::ConstructorBuiltin),
            9 => Some(Type::Embedded),
            10 => Some(Type::Error),
            11 => Some(Type::Escape),
            12 => Some(Type::Function),
            13 => Some(Type::FunctionBuiltin),
            14 => Some(Type::Keyword),
            15 => Some(Type::Markup),
            16 => Some(Type::MarkupBold),
            17 => Some(Type::MarkupHeading),
            18 => Some(Type::MarkupItalic),
            19 => Some(Type::MarkupLink),
            20 => Some(Type::MarkupLinkUrl),
            21 => Some(Type::MarkupList),
            22 => Some(Type::MarkupListChecked),
            23 => Some(Type::MarkupListNumbered),
            24 => Some(Type::MarkupListUnchecked),
            25 => Some(Type::MarkupListUnnumbered),
            26 => Some(Type::MarkupQuote),
            27 => Some(Type::MarkupRaw),
            28 => Some(Type::MarkupRawBlock),
            29 => Some(Type::MarkupRawInline),
            30 => Some(Type::MarkupStrikethrough),
            31 => Some(Type::Module),
            32 => Some(Type::Number),
            33 => Some(Type::Operator),
            34 => Some(Type::Property),
            35 => Some(Type::PropertyBuiltin),
            36 => Some(Type::Punctuation),
            37 => Some(Type::PunctuationBracket),
            38 => Some(Type::PunctuationDelimiter),
            39 => Some(Type::PunctuationSpecial),
            40 => Some(Type::String),
            41 => Some(Type::StringEscape),
            42 => Some(Type::StringRegexp),
            43 => Some(Type::StringSpecial),
            44 => Some(Type::StringSpecialSymbol),
            45 => Some(Type::Tag),
            46 => Some(Type::Type),
            47 => Some(Type::TypeBuiltin),
            48 => Some(Type::Variable),
            49 => Some(Type::VariableBuiltin),
            50 => Some(Type::VariableMember),
            51 => Some(Type::VariableParameter),
            _ => None,
        }
    }

    /// The name under which the highlighter knows this class; see
    /// [`name_of`].
    pub fn name(&self) -> (n: Option<&'static str>)
        ensures
            match n {
                Some(text) => name_of(*self) == Some(text@),
                None => name_of(*self) is None,
            },
    {
        match self {
            Type::Plain => None,
            Type::Attribute => Some("attribute"),
            Type::Boolean => Some("boolean"),
            Type::CarriageReturn => Some("carriage-return"),
            Type::Comment => Some("comment"),
            Type::CommentDocumentation => Some("comment.documentation"),
            Type::Constant => Some("constant"),
            Type::ConstantBuiltin => Some("constant.builtin"),
            Type::Constructor => Some("constructor"),
            Type::ConstructorBuiltin => Some("constructor.builtin"),
            Type::Embedded => Some("embedded"),
            Type::Error => Some("error"),
            Type::Escape => Some("escape"),
            Type::Function => Some("function"),
            Type::FunctionBuiltin => Some("function.builtin"),
            Type::Keyword => Some("keyword"),
            Type::Markup => Some("markup"),
            Type::MarkupBold => Some("markup.bold"),
            Type::MarkupHeading => Some("markup.heading"),
            Type::MarkupItalic => Some("markup.italic"),
            Type::MarkupLink => Some("markup.link"),
            Type::MarkupLinkUrl => Some("markup.link.url"),
            Type::MarkupList => Some("markup.list"),
            Type::MarkupListChecked => Some("markup.list.checked"),
            Type::MarkupListNumbered => Some("markup.list.numbered"),
            Type::MarkupListUnchecked => Some("markup.list.unchecked"),
            Type::MarkupListUnnumbered => Some("markup.list.unnumbered"),
            Type::MarkupQuote => Some("markup.quote"),
            Type::MarkupRaw => Some("markup.raw"),
            Type::MarkupRawBlock => Some("markup.raw.block"),
            Type::MarkupRawInline => Some("markup.raw.inline"),
            Type::MarkupStrikethrough => Some("markup.strikethrough"),
            Type::Module => Some("module"),
            Type::Number => Some("number"),
            Type::Operator => Some("operator"),
            Type::Property => Some("property"),
            Type::PropertyBuiltin => Some("property.builtin"),
            Type::Punctuation => Some("punctuation"),
            Type::PunctuationBracket => Some("punctuation.bracket"),
            Type::PunctuationDelimiter => Some("punctuation.delimiter"),
            Type::PunctuationSpecial => Some("punctuation.special"),
            Type::String => Some("string"),
            Type::StringEscape => Some("string.escape"),
            Type::StringRegexp => Some("string.regexp"),
            Type::StringSpecial => Some("string.special"),
            Type::StringSpecialSymbol => Some("string.special.symbol"),
            Type::Tag => Some("tag"),
            Type::Type => Some("type"),
            Type::TypeBuiltin => Some("type.builtin"),
            Type::Variable => Some("variable"),
            Type::VariableBuiltin => Some("variable.builtin"),
            Type::VariableMember => Some("variable.member"),
            Type::VariableParameter => Some("variable.parameter"),
        }
    }
}

/// The names of the classes, in the order in which the highlighter numbers
/// them.
pub fn class_names() -> (names: Vec<&'static str>)
    ensures
        names.len() == CLASS_COUNT,
        forall|i: int|
            0 <= i < CLASS_COUNT ==> class_at(i) is Some && name_of(class_at(i)->0) == Some(
                (#[trigger] names[i])@,
            ),
{
    let mut names: Vec<&'static str> = Vec::new();
    let mut index: usize = 0;
    while index < CLASS_COUNT
        invariant
            index <= CLASS_COUNT,
            names.len() == index,
            forall|i: int|
                0 <= i < index ==> class_at(i) is Some && name_of(class_at(i)->0) == Some(
                    (#[trigger] names[i])@,
                ),
        decreases CLASS_COUNT - index,
    {
        match Type::from_index(index) {
            Some(class) => match class.name() {
                Some(name) => {
                    names.push(name);
                },
                None => {
                    assert(false);
                },
            },
            None => {
                assert(false);
            },
        }
        index += 1;
    }
    names
}

/// A parsing grammar of `tree_sitter`. Verus knows nothing of its inside.
#[verifier::external_type_specification]
#[verifier::external_body]
pub struct ExLanguage(tree_sitter::Language);

/// The highlighter of `tree_sitter_highlight`. Verus knows nothing of its
/// inside.
#[verifier::external_type_specification]
#[verifier::external_body]
pub struct ExHighlighter(tree_sitter_highlight::Highlighter);

/// A grammar with its queries, prepared for the highlighter. Verus knows
/// nothing of its inside.
#[verifier::external_type_specification]
#[verifier::external_body]
pub struct ExHighlightConfiguration(tree_sitter_highlight::HighlightConfiguration);

/// One step of the highlighter through a source.
#[derive(Clone, Copy, Debug, PartialEq, Eq)]
pub enum HighlightEvent {
    /// The bytes `start..end` of the source come next.
    Source { start: usize, end: usize },
    /// From here on the source is in the class with this number.
    HighlightStart(usize),
    /// From here on the source is plain.
    HighlightEnd,
}

/// Why a source was not highlighted.
#[derive(Clone, Copy, Debug, PartialEq, Eq)]
pub enum HighlightError {
    /// The highlighter gave up.
    Failed,
    /// The highlighter named a class that it was not told about.
    UnknownClass,
}

/// What a run of events has painted: one class for each byte so far, the
/// class that is being painted, and whether every class number was known.
pub ghost struct Painted {
    pub tags: Seq<Type>,
    pub current: Type,
    pub known: bool,
}

/// What the events `events` paint. A stretch of source gets the current
/// class for each of its bytes, except under the class of carriage returns,
/// whose bytes are left out. A class number that stands for no class spoils
/// the run.
pub open spec fn paint(events: Seq<HighlightEvent>) -> Painted
    decreases events.len(),
{
    if events.len() == 0 {
        Painted { tags: Seq::empty(), current: Type::Plain, known: true }
    } else {
        let before = paint(events.drop_last());
        match events.last() {
            HighlightEvent::Source { start, end } => if before.current == Type::CarriageReturn
                || end <= start {
                before
            } else {
                Painted {
                    tags: before.tags + Seq::new((end - start) as nat, |i: int| before.current),
                    ..before
                }
            },
            HighlightEvent::HighlightStart(index) => match class_at(index as int) {
                Some(class) => Painted { current: class, ..before },
                None => Painted { known: false, ..before },
            },
            HighlightEvent::HighlightEnd => Painted { current: Type::Plain, ..before },
        }
    }
}

/// A run that is spoiled stays spoiled.
pub proof fn lemma_spoiled_run_stays_spoiled(events: Seq<HighlightEvent>, k: int)
    requires
        0 <= k <= events.len(),
        !paint(events.subrange(0, k)).known,
    ensures
        !paint(events).known,
    decreases events.len() - k,
{
    if k < events.len() {
        assert(events.subrange(0, k + 1).drop_last() =~= events.subrange(0, k));
        lemma_spoiled_run_stays_spoiled(events, k + 1);
    } else {
        assert(events.subrange(0, k) =~= events);
    }
}

/// The class of each byte of a source, from the highlighter's events; see
/// [`paint`].
pub fn tags_of(events: &Vec<HighlightEvent>) -> (r: Result<Vec<Type>, HighlightError>)
    ensures
        match r {
            Ok(tags) => paint(events@).known && tags@ == paint(events@).tags,
            Err(e) => !paint(events@).known && e == HighlightError::UnknownClass,
        },
{
    let mut tags: Vec<Type> = Vec::new();
    let mut current: Type = Type::Plain;
    let mut done: usize = 0;
    assert(events@.subrange(0, 0) =~= Seq::<HighlightEvent>::empty());
    while done < events.len()
        invariant
            done <= events.len(),
            paint(events@.subrange(0, done as int)) == (Painted {
                tags: tags@,
                current,
                known: true,
            }),
        decreases events.len() - done,
    {
        let ghost before = paint(events@.subrange(0, done as int));
        assert(events@.subrange(0, done + 1).drop_last() =~= events@.subrange(0, done as int));
        match events[done] {
            HighlightEvent::Source { start, end } => {
                if current != Type::CarriageReturn && start < end {
                    let mut at: usize = start;
                    while at < end
                        invariant
                            start <= at <= end,
                            tags@ == before.tags + Seq::new(
                                (at - start) as nat,
                                |i: int| current,
                            ),
                        decreases end - at,
                    {
                        tags.push(current);
                        at += 1;
                        assert(tags@ =~= before.tags + Seq::new(
                            (at - start) as nat,
                            |i: int| current,
                        ));
                    }
                    assert(tags@ =~= paint(events@.subrange(0, done + 1)).tags);
                }
            },
            HighlightEvent::HighlightStart(index) => match Type::from_index(index) {
                Some(class) => {
                    current = class;
                },
                None => {
                    proof {
                        lemma_spoiled_run_stays_spoiled(events@, done + 1);
                    }
                    return Err(HighlightError::UnknownClass);
                },
            },
            HighlightEvent::HighlightEnd => {
                current = Type::Plain;
            },
        }
        done += 1;
    }
    assert(events@.subrange(0, done as int) =~= events@);
    Ok(tags)
}

/// `tree_sitter_highlight::Highlighter::new`: a fresh highlighter.
#[verifier::external_body]
pub(crate) fn new_highlighter() -> tree_sitter_highlight::Highlighter {
    tree_sitter_highlight::Highlighter::new()
}

/// `tree_sitter_highlight::HighlightConfiguration::new` for a grammar, a
/// highlight query and an injection query, without a query for locals;
/// `None` where the queries do not fit the grammar.
#[verifier::external_body]
pub(crate) fn new_configuration(
    lang: tree_sitter::Language,
    hl_query: &str,
    inj_query: &str,
) -> Option<tree_sitter_highlight::HighlightConfiguration> {
    tree_sitter_highlight::HighlightConfiguration::new(lang, hl_query, inj_query, "").ok()
}

/// `tree_sitter_highlight::HighlightConfiguration::configure`: tells the
/// configuration the names of the classes, which it will number in this
/// order.
#[verifier::external_body]
pub(crate) fn configure(
    config: &mut tree_sitter_highlight::HighlightConfiguration,
    names: &Vec<&'static str>,
) {
    config.configure(names.as_slice());
}

/// `tree_sitter_highlight::Highlighter::highlight` without cancellation and
/// without injected languages, run to its end: the events in order, or
/// `None` where the highlighter fails at the start or on the way. The
/// contract promises nothing of the events.
#[verifier::external_body]
pub(crate) fn run_highlighter(
    highlighter: &mut tree_sitter_highlight::Highlighter,
    config: &tree_sitter_highlight::HighlightConfiguration,
    code: &[u8],
) -> Option<Vec<HighlightEvent>> {
    let run = highlighter.highlight(config, code, None, |_| None).ok()?;
    run.map(|event| Some(match event.ok()? {
        tree_sitter_highlight::HighlightEvent::Source { start, end } => HighlightEvent::Source { start, end },
        tree_sitter_highlight::HighlightEvent::HighlightStart(h) => HighlightEvent::HighlightStart(h.0),
        tree_sitter_highlight::HighlightEvent::HighlightEnd => HighlightEvent::HighlightEnd,
    })).collect()
}

/// A highlighter for one language.
pub struct Highlight {
    highlighter: tree_sitter_highlight::Highlighter,
    config: tree_sitter_highlight::HighlightConfiguration,
}

impl Highlight {
    /// A highlighter for the grammar `lang` with its highlight and injection
    /// queries. Whether the queries fit the grammar is for the grammar's
    /// library to say; where they do not, the error is a message that says
    /// so.
    pub fn new(lang: tree_sitter::Language, hl_query: &str, inj_query: &str) -> (r: Result<
        Highlight,
        String,
    >)
        ensures
            r matches Err(message) ==> message@ == "Failed to initialize config"@,
    {
        let highlighter = new_highlighter();
        match new_configuration(lang, hl_query, inj_query) {
            Some(config) => {
                let mut config = config;
                let names = class_names();
                configure(&mut config, &names);
                Ok(Highlight { highlighter, config })
            },
            None => Err(String::from_str("Failed to initialize config")),
        }
    }

    /// The class of each byte of `code`. What the highlighter finds is for
    /// it to say; what its events are turned into, [`tags_of`] says.
    pub fn highlight(&mut self, code: &[u8]) -> (r: Result<Vec<Type>, HighlightError>)
        ensures
            r matches Ok(tags) ==> exists|events: Seq<HighlightEvent>|
                paint(events).known && tags@ == #[trigger] paint(events).tags,
    {
        match run_highlighter(&mut self.highlighter, &self.config, code) {
            Some(events) => tags_of(&events),
            None => Err(HighlightError::Failed),
        }
    }
}

/// Whether `tags` is what some run of events paints, with every class
/// number known; see [`paint`].
pub open spec fn painted(tags: Seq<Type>) -> bool {
    exists|events: Seq<HighlightEvent>|
        paint(events).known && tags == #[trigger] paint(events).tags
}

} // verus!
