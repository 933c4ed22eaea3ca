//! The kinds of syntax nodes: tokens first, then composite nodes.

use vstd::prelude::*;

verus! {

/// The kind of a syntax node: a token or a composite node of the grammar.
#[allow(non_camel_case_types)]
#[derive(Clone, Copy, Debug, PartialEq, Eq, Structural, Hash)]
pub enum SyntaxKind {
    // punctuation
    SEMI,
    COMMA,
    L_PAREN,
    R_PAREN,
    L_CURLY,
    R_CURLY,
    L_BRACK,
    R_BRACK,
    L_ANGLE,
    R_ANGLE,
    AT,
    POUND,
    TILDE,
    QUESTION,
    DOLLAR,
    AMP,
    PIPE,
    PLUS,
    STAR,
    SLASH,
    CARET,
    PERCENT,
    DOT,
    DOTDOT,
    DOTDOTDOT,
    DOTDOTEQ,
    COLON,
    COLONCOLON,
    EQ,
    EQEQ,
    FAT_ARROW,
    EXCL,
    NEQ,
    MINUS,
    THIN_ARROW,
    LTEQ,
    GTEQ,
    PLUSEQ,
    MINUSEQ,
    PIPEEQ,
    AMPEQ,
    CARETEQ,
    SLASHEQ,
    STAREQ,
    PERCENTEQ,
    AMPAMP,
    PIPEPIPE,
    SHL,
    SHR,
    SHLEQ,
    SHREQ,
    // keywords
    USE_KW,
    FN_KW,
    STRUCT_KW,
    ENUM_KW,
    TRAIT_KW,
    IMPL_KW,
    DYN_KW,
    TRUE_KW,
    FALSE_KW,
    AS_KW,
    EXTERN_KW,
    CRATE_KW,
    MOD_KW,
    PUB_KW,
    SELF_KW,
    SUPER_KW,
    IN_KW,
    WHERE_KW,
    FOR_KW,
    LOOP_KW,
    WHILE_KW,
    CONTINUE_KW,
    BREAK_KW,
    IF_KW,
    ELSE_KW,
    MATCH_KW,
    CONST_KW,
    STATIC_KW,
    MUT_KW,
    UNSAFE_KW,
    TYPE_KW,
    REF_KW,
    LET_KW,
    MOVE_KW,
    RETURN_KW,
    AUTO_KW,
    DEFAULT_KW,
    UNION_KW,
    // literals
    INT_NUMBER,
    FLOAT_NUMBER,
    CHAR,
    BYTE,
    STRING,
    RAW_STRING,
    BYTE_STRING,
    RAW_BYTE_STRING,
    // other tokens
    IDENT,
    UNDERSCORE,
    WHITESPACE,
    LIFETIME,
    COMMENT,
    SHEBANG,
    // composite nodes
    ERROR,
    SOURCE_FILE,
    STRUCT_DEF,
    ENUM_DEF,
    FN_DEF,
    RET_TYPE,
    EXTERN_CRATE_ITEM,
    MODULE,
    USE_ITEM,
    STATIC_DEF,
    CONST_DEF,
    TRAIT_DEF,
    IMPL_BLOCK,
    TYPE_DEF,
    MACRO_CALL,
    TOKEN_TREE,
    PAREN_TYPE,
    TUPLE_TYPE,
    NEVER_TYPE,
    PATH_TYPE,
    POINTER_TYPE,
    ARRAY_TYPE,
    SLICE_TYPE,
    REFERENCE_TYPE,
    PLACEHOLDER_TYPE,
    FN_POINTER_TYPE,
    FOR_TYPE,
    IMPL_TRAIT_TYPE,
    DYN_TRAIT_TYPE,
    REF_PAT,
    BIND_PAT,
    PLACEHOLDER_PAT,
    PATH_PAT,
    STRUCT_PAT,
    FIELD_PAT_LIST,
    TUPLE_STRUCT_PAT,
    TUPLE_PAT,
    SLICE_PAT,
    RANGE_PAT,
    TUPLE_EXPR,
    ARRAY_EXPR,
    PAREN_EXPR,
    PATH_EXPR,
    LAMBDA_EXPR,
    IF_EXPR,
    WHILE_EXPR,
    CONDITION,
    LOOP_EXPR,
    FOR_EXPR,
    CONTINUE_EXPR,
    BREAK_EXPR,
    LABEL,
    BLOCK_EXPR,
    RETURN_EXPR,
    MATCH_EXPR,
    MATCH_ARM_LIST,
    MATCH_ARM,
    MATCH_GUARD,
    STRUCT_LIT,
    NAMED_FIELD_LIST,
    NAMED_FIELD,
    CALL_EXPR,
    INDEX_EXPR,
    METHOD_CALL_EXPR,
    FIELD_EXPR,
    TRY_EXPR,
    CAST_EXPR,
    REF_EXPR,
    PREFIX_EXPR,
    RANGE_EXPR,
    BIN_EXPR,
    BLOCK,
    EXTERN_BLOCK,
    EXTERN_ITEM_LIST,
    ENUM_VARIANT,
    NAMED_FIELD_DEF_LIST,
    NAMED_FIELD_DEF,
    POS_FIELD_LIST,
    POS_FIELD,
    ENUM_VARIANT_LIST,
    ITEM_LIST,
    ATTR,
    META_ITEM,
    USE_TREE,
    USE_TREE_LIST,
    PATH,
    PATH_SEGMENT,
    LITERAL,
    ALIAS,
    VISIBILITY,
    WHERE_CLAUSE,
    WHERE_PRED,
    ABI,
    NAME,
    NAME_REF,
    LET_STMT,
    EXPR_STMT,
    TYPE_PARAM_LIST,
    LIFETIME_PARAM,
    TYPE_PARAM,
    TYPE_ARG_LIST,
    LIFETIME_ARG,
    TYPE_ARG,
    ASSOC_TYPE_ARG,
    PARAM_LIST,
    PARAM,
    SELF_PARAM,
    ARG_LIST,
}

impl SyntaxKind {
    /// The position of the kind in the declaration order, as a number.
    pub open spec fn spec_code(self) -> u16 {
        match self {
            SyntaxKind::SEMI => 0u16,
            SyntaxKind::COMMA => 1u16,
            SyntaxKind::L_PAREN => 2u16,
            SyntaxKind::R_PAREN => 3u16,
            SyntaxKind::L_CURLY => 4u16,
            SyntaxKind::R_CURLY => 5u16,
            SyntaxKind::L_BRACK => 6u16,
            SyntaxKind::R_BRACK => 7u16,
            SyntaxKind::L_ANGLE => 8u16,
            SyntaxKind::R_ANGLE => 9u16,
            SyntaxKind::AT => 10u16,
            SyntaxKind::POUND => 11u16,
            SyntaxKind::TILDE => 12u16,
            SyntaxKind::QUESTION => 13u16,
            SyntaxKind::DOLLAR => 14u16,
            SyntaxKind::AMP => 15u16,
            SyntaxKind::PIPE => 16u16,
            SyntaxKind::PLUS => 17u16,
            SyntaxKind::STAR => 18u16,
            SyntaxKind::SLASH => 19u16,
            SyntaxKind::CARET => 20u16,
            SyntaxKind::PERCENT => 21u16,
            SyntaxKind::DOT => 22u16,
            SyntaxKind::DOTDOT => 23u16,
            SyntaxKind::DOTDOTDOT => 24u16,
            SyntaxKind::DOTDOTEQ => 25u16,
            SyntaxKind::COLON => 26u16,
            SyntaxKind::COLONCOLON => 27u16,
            SyntaxKind::EQ => 28u16,
            SyntaxKind::EQEQ => 29u16,
            SyntaxKind::FAT_ARROW => 30u16,
            SyntaxKind::EXCL => 31u16,
            SyntaxKind::NEQ => 32u16,
            SyntaxKind::MINUS => 33u16,
            SyntaxKind::THIN_ARROW => 34u16,
            SyntaxKind::LTEQ => 35u16,
            SyntaxKind::GTEQ => 36u16,
            SyntaxKind::PLUSEQ => 37u16,
            SyntaxKind::MINUSEQ => 38u16,
            SyntaxKind::PIPEEQ => 39u16,
            SyntaxKind::AMPEQ => 40u16,
            SyntaxKind::CARETEQ => 41u16,
            SyntaxKind::SLASHEQ => 42u16,
            SyntaxKind::STAREQ => 43u16,
            SyntaxKind::PERCENTEQ => 44u16,
            SyntaxKind::AMPAMP => 45u16,
            SyntaxKind::PIPEPIPE => 46u16,
            SyntaxKind::SHL => 47u16,
            SyntaxKind::SHR => 48u16,
            SyntaxKind::SHLEQ => 49u16,
            SyntaxKind::SHREQ => 50u16,
            SyntaxKind::USE_KW => 51u16,
            SyntaxKind::FN_KW => 52u16,
            SyntaxKind::STRUCT_KW => 53u16,
            SyntaxKind::ENUM_KW => 54u16,
            SyntaxKind::TRAIT_KW => 55u16,
            SyntaxKind::IMPL_KW => 56u16,
            SyntaxKind::DYN_KW => 57u16,
            SyntaxKind::TRUE_KW => 58u16,
            SyntaxKind::FALSE_KW => 59u16,
            SyntaxKind::AS_KW => 60u16,
            SyntaxKind::EXTERN_KW => 61u16,
            SyntaxKind::CRATE_KW => 62u16,
            SyntaxKind::MOD_KW => 63u16,
            SyntaxKind::PUB_KW => 64u16,
            SyntaxKind::SELF_KW => 65u16,
            SyntaxKind::SUPER_KW => 66u16,
            SyntaxKind::IN_KW => 67u16,
            SyntaxKind::WHERE_KW => 68u16,
            SyntaxKind::FOR_KW => 69u16,
            SyntaxKind::LOOP_KW => 70u16,
            SyntaxKind::WHILE_KW => 71u16,
            SyntaxKind::CONTINUE_KW => 72u16,
            SyntaxKind::BREAK_KW => 73u16,
            SyntaxKind::IF_KW => 74u16,
            SyntaxKind::ELSE_KW => 75u16,
            SyntaxKind::MATCH_KW => 76u16,
            SyntaxKind::CONST_KW => 77u16,
            SyntaxKind::STATIC_KW => 78u16,
            SyntaxKind::MUT_KW => 79u16,
            SyntaxKind::UNSAFE_KW => 80u16,
            SyntaxKind::TYPE_KW => 81u16,
            SyntaxKind::REF_KW => 82u16,
            SyntaxKind::LET_KW => 83u16,
            SyntaxKind::MOVE_KW => 84u16,
            SyntaxKind::RETURN_KW => 85u16,
            SyntaxKind::AUTO_KW => 86u16,
            SyntaxKind::DEFAULT_KW => 87u16,
            SyntaxKind::UNION_KW => 88u16,
            SyntaxKind::INT_NUMBER => 89u16,
            SyntaxKind::FLOAT_NUMBER => 90u16,
            SyntaxKind::CHAR => 91u16,
            SyntaxKind::BYTE => 92u16,
            SyntaxKind::STRING => 93u16,
            SyntaxKind::RAW_STRING => 94u16,
            SyntaxKind::BYTE_STRING => 95u16,
            SyntaxKind::RAW_BYTE_STRING => 96u16,
            SyntaxKind::IDENT => 97u16,
            SyntaxKind::UNDERSCORE => 98u16,
            SyntaxKind::WHITESPACE => 99u16,
            SyntaxKind::LIFETIME => 100u16,
            SyntaxKind::COMMENT => 101u16,
            SyntaxKind::SHEBANG => 102u16,
            SyntaxKind::ERROR => 103u16,
            SyntaxKind::SOURCE_FILE => 104u16,
            SyntaxKind::STRUCT_DEF => 105u16,
            SyntaxKind::ENUM_DEF => 106u16,
            SyntaxKind::FN_DEF => 107u16,
            SyntaxKind::RET_TYPE => 108u16,
            SyntaxKind::EXTERN_CRATE_ITEM => 109u16,
            SyntaxKind::MODULE => 110u16,
            SyntaxKind::USE_ITEM => 111u16,
            SyntaxKind::STATIC_DEF => 112u16,
            SyntaxKind::CONST_DEF => 113u16,
            SyntaxKind::TRAIT_DEF => 114u16,
            SyntaxKind::IMPL_BLOCK => 115u16,
            SyntaxKind::TYPE_DEF => 116u16,
            SyntaxKind::MACRO_CALL => 117u16,
            SyntaxKind::TOKEN_TREE => 118u16,
            SyntaxKind::PAREN_TYPE => 119u16,
            SyntaxKind::TUPLE_TYPE => 120u16,
            SyntaxKind::NEVER_TYPE => 121u16,
            SyntaxKind::PATH_TYPE => 122u16,
            SyntaxKind::POINTER_TYPE => 123u16,
            SyntaxKind::ARRAY_TYPE => 124u16,
            SyntaxKind::SLICE_TYPE => 125u16,
            SyntaxKind::REFERENCE_TYPE => 126u16,
            SyntaxKind::PLACEHOLDER_TYPE => 127u16,
            SyntaxKind::FN_POINTER_TYPE => 128u16,
            SyntaxKind::FOR_TYPE => 129u16,
            SyntaxKind::IMPL_TRAIT_TYPE => 130u16,
            SyntaxKind::DYN_TRAIT_TYPE => 131u16,
            SyntaxKind::REF_PAT => 132u16,
            SyntaxKind::BIND_PAT => 133u16,
            SyntaxKind::PLACEHOLDER_PAT => 134u16,
            SyntaxKind::PATH_PAT => 135u16,
            SyntaxKind::STRUCT_PAT => 136u16,
            SyntaxKind::FIELD_PAT_LIST => 137u16,
            SyntaxKind::TUPLE_STRUCT_PAT => 138u16,
            SyntaxKind::TUPLE_PAT => 139u16,
            SyntaxKind::SLICE_PAT => 140u16,
            SyntaxKind::RANGE_PAT => 141u16,
            SyntaxKind::TUPLE_EXPR => 142u16,
            SyntaxKind::ARRAY_EXPR => 143u16,
            SyntaxKind::PAREN_EXPR => 144u16,
            SyntaxKind::PATH_EXPR => 145u16,
            SyntaxKind::LAMBDA_EXPR => 146u16,
            SyntaxKind::IF_EXPR => 147u16,
            SyntaxKind::WHILE_EXPR => 148u16,
            SyntaxKind::CONDITION => 149u16,
            SyntaxKind::LOOP_EXPR => 150u16,
            SyntaxKind::FOR_EXPR => 151u16,
            SyntaxKind::CONTINUE_EXPR => 152u16,
            SyntaxKind::BREAK_EXPR => 153u16,
            SyntaxKind::LABEL => 154u16,
            SyntaxKind::BLOCK_EXPR => 155u16,
            SyntaxKind::RETURN_EXPR => 156u16,
            SyntaxKind::MATCH_EXPR => 157u16,
            SyntaxKind::MATCH_ARM_LIST => 158u16,
            SyntaxKind::MATCH_ARM => 159u16,
            SyntaxKind::MATCH_GUARD => 160u16,
            SyntaxKind::STRUCT_LIT => 161u16,
            SyntaxKind::NAMED_FIELD_LIST => 162u16,
            SyntaxKind::NAMED_FIELD => 163u16,
            SyntaxKind::CALL_EXPR => 164u16,
            SyntaxKind::INDEX_EXPR => 165u16,
            SyntaxKind::METHOD_CALL_EXPR => 166u16,
            SyntaxKind::FIELD_EXPR => 167u16,
            SyntaxKind::TRY_EXPR => 168u16,
            SyntaxKind::CAST_EXPR => 169u16,
            SyntaxKind::REF_EXPR => 170u16,
            SyntaxKind::PREFIX_EXPR => 171u16,
            SyntaxKind::RANGE_EXPR => 172u16,
            SyntaxKind::BIN_EXPR => 173u16,
            SyntaxKind::BLOCK => 174u16,
            SyntaxKind::EXTERN_BLOCK => 175u16,
            SyntaxKind::EXTERN_ITEM_LIST => 176u16,
            SyntaxKind::ENUM_VARIANT => 177u16,
            SyntaxKind::NAMED_FIELD_DEF_LIST => 178u16,
            SyntaxKind::NAMED_FIELD_DEF => 179u16,
            SyntaxKind::POS_FIELD_LIST => 180u16,
            SyntaxKind::POS_FIELD => 181u16,
            SyntaxKind::ENUM_VARIANT_LIST => 182u16,
            SyntaxKind::ITEM_LIST => 183u16,
            SyntaxKind::ATTR => 184u16,
            SyntaxKind::META_ITEM => 185u16,
            SyntaxKind::USE_TREE => 186u16,
            SyntaxKind::USE_TREE_LIST => 187u16,
            SyntaxKind::PATH => 188u16,
            SyntaxKind::PATH_SEGMENT => 189u16,
            SyntaxKind::LITERAL => 190u16,
            SyntaxKind::ALIAS => 191u16,
            SyntaxKind::VISIBILITY => 192u16,
            SyntaxKind::WHERE_CLAUSE => 193u16,
            SyntaxKind::WHERE_PRED => 194u16,
            SyntaxKind::ABI => 195u16,
            SyntaxKind::NAME => 196u16,
            SyntaxKind::NAME_REF => 197u16,
            SyntaxKind::LET_STMT => 198u16,
            SyntaxKind::EXPR_STMT => 199u16,
            SyntaxKind::TYPE_PARAM_LIST => 200u16,
            SyntaxKind::LIFETIME_PARAM => 201u16,
            SyntaxKind::TYPE_PARAM => 202u16,
            SyntaxKind::TYPE_ARG_LIST => 203u16,
            SyntaxKind::LIFETIME_ARG => 204u16,
            SyntaxKind::TYPE_ARG => 205u16,
            SyntaxKind::ASSOC_TYPE_ARG => 206u16,
            SyntaxKind::PARAM_LIST => 207u16,
            SyntaxKind::PARAM => 208u16,
            SyntaxKind::SELF_PARAM => 209u16,
            SyntaxKind::ARG_LIST => 210u16,
        }
    }

    /// Gives each kind its own number: two kinds with one code are the same kind.
    pub fn code(self) -> (c: u16)
        ensures
            c == self.spec_code(),
            c < 211,
    {
        match self {
            SyntaxKind::SEMI => 0u16,
            SyntaxKind::COMMA => 1u16,
            SyntaxKind::L_PAREN => 2u16,
            SyntaxKind::R_PAREN => 3u16,
            SyntaxKind::L_CURLY => 4u16,
            SyntaxKind::R_CURLY => 5u16,
            SyntaxKind::L_BRACK => 6u16,
            SyntaxKind::R_BRACK => 7u16,
            SyntaxKind::L_ANGLE => 8u16,
            SyntaxKind::R_ANGLE => 9u16,
            SyntaxKind::AT => 10u16,
            SyntaxKind::POUND => 11u16,
            SyntaxKind::TILDE => 12u16,
            SyntaxKind::QUESTION => 13u16,
            SyntaxKind::DOLLAR => 14u16,
            SyntaxKind::AMP => 15u16,
            SyntaxKind::PIPE => 16u16,
            SyntaxKind::PLUS => 17u16,
            SyntaxKind::STAR => 18u16,
            SyntaxKind::SLASH => 19u16,
            SyntaxKind::CARET => 20u16,
            SyntaxKind::PERCENT => 21u16,
            SyntaxKind::DOT => 22u16,
            SyntaxKind::DOTDOT => 23u16,
            SyntaxKind::DOTDOTDOT => 24u16,
            SyntaxKind::DOTDOTEQ => 25u16,
            SyntaxKind::COLON => 26u16,
            SyntaxKind::COLONCOLON => 27u16,
            SyntaxKind::EQ => 28u16,
            SyntaxKind::EQEQ => 29u16,
            SyntaxKind::FAT_ARROW => 30u16,
            SyntaxKind::EXCL => 31u16,
            SyntaxKind::NEQ => 32u16,
            SyntaxKind::MINUS => 33u16,
            SyntaxKind::THIN_ARROW => 34u16,
            SyntaxKind::LTEQ => 35u16,
            SyntaxKind::GTEQ => 36u16,
            SyntaxKind::PLUSEQ => 37u16,
            SyntaxKind::MINUSEQ => 38u16,
            SyntaxKind::PIPEEQ => 39u16,
            SyntaxKind::AMPEQ => 40u16,
            SyntaxKind::CARETEQ => 41u16,
            SyntaxKind::SLASHEQ => 42u16,
            SyntaxKind::STAREQ => 43u16,
            SyntaxKind::PERCENTEQ => 44u16,
            SyntaxKind::AMPAMP => 45u16,
            SyntaxKind::PIPEPIPE => 46u16,
            SyntaxKind::SHL => 47u16,
            SyntaxKind::SHR => 48u16,
            SyntaxKind::SHLEQ => 49u16,
            SyntaxKind::SHREQ => 50u16,
            SyntaxKind::USE_KW => 51u16,
            SyntaxKind::FN_KW => 52u16,
            SyntaxKind::STRUCT_KW => 53u16,
            SyntaxKind::ENUM_KW => 54u16,
            SyntaxKind::TRAIT_KW => 55u16,
            SyntaxKind::IMPL_KW => 56u16,
            SyntaxKind::DYN_KW => 57u16,
            SyntaxKind::TRUE_KW => 58u16,
            SyntaxKind::FALSE_KW => 59u16,
            SyntaxKind::AS_KW => 60u16,
            SyntaxKind::EXTERN_KW => 61u16,
            SyntaxKind::CRATE_KW => 62u16,
            SyntaxKind::MOD_KW => 63u16,
            SyntaxKind::PUB_KW => 64u16,
            SyntaxKind::SELF_KW => 65u16,
            SyntaxKind::SUPER_KW => 66u16,
            SyntaxKind::IN_KW => 67u16,
            SyntaxKind::WHERE_KW => 68u16,
            SyntaxKind::FOR_KW => 69u16,
            SyntaxKind::LOOP_KW => 70u16,
            SyntaxKind::WHILE_KW => 71u16,
            SyntaxKind::CONTINUE_KW => 72u16,
            SyntaxKind::BREAK_KW => 73u16,
            SyntaxKind::IF_KW => 74u16,
            SyntaxKind::ELSE_KW => 75u16,
            SyntaxKind::MATCH_KW => 76u16,
            SyntaxKind::CONST_KW => 77u16,
            SyntaxKind::STATIC_KW => 78u16,
            SyntaxKind::MUT_KW => 79u16,
            SyntaxKind::UNSAFE_KW => 80u16,
            SyntaxKind::TYPE_KW => 81u16,
            SyntaxKind::REF_KW => 82u16,
            SyntaxKind::LET_KW => 83u16,
            SyntaxKind::MOVE_KW => 84u16,
            SyntaxKind::RETURN_KW => 85u16,
            SyntaxKind::AUTO_KW => 86u16,
            SyntaxKind::DEFAULT_KW => 87u16,
            SyntaxKind::UNION_KW => 88u16,
            SyntaxKind::INT_NUMBER => 89u16,
            SyntaxKind::FLOAT_NUMBER => 90u16,
            SyntaxKind::CHAR => 91u16,
            SyntaxKind::BYTE => 92u16,
            SyntaxKind::STRING => 93u16,
            SyntaxKind::RAW_STRING => 94u16,
            SyntaxKind::BYTE_STRING => 95u16,
            SyntaxKind::RAW_BYTE_STRING => 96u16,
            SyntaxKind::IDENT => 97u16,
            SyntaxKind::UNDERSCORE => 98u16,
            SyntaxKind::WHITESPACE => 99u16,
            SyntaxKind::LIFETIME => 100u16,
            SyntaxKind::COMMENT => 101u16,
            SyntaxKind::SHEBANG => 102u16,
            SyntaxKind::ERROR => 103u16,
            SyntaxKind::SOURCE_FILE => 104u16,
            SyntaxKind::STRUCT_DEF => 105u16,
            SyntaxKind::ENUM_DEF => 106u16,
            SyntaxKind::FN_DEF => 107u16,
            SyntaxKind::RET_TYPE => 108u16,
            SyntaxKind::EXTERN_CRATE_ITEM => 109u16,
            SyntaxKind::MODULE => 110u16,
            SyntaxKind::USE_ITEM => 111u16,
            SyntaxKind::STATIC_DEF => 112u16,
            SyntaxKind::CONST_DEF => 113u16,
            SyntaxKind::TRAIT_DEF => 114u16,
            SyntaxKind::IMPL_BLOCK => 115u16,
            SyntaxKind::TYPE_DEF => 116u16,
            SyntaxKind::MACRO_CALL => 117u16,
            SyntaxKind::TOKEN_TREE => 118u16,
            SyntaxKind::PAREN_TYPE => 119u16,
            SyntaxKind::TUPLE_TYPE => 120u16,
            SyntaxKind::NEVER_TYPE => 121u16,
            SyntaxKind::PATH_TYPE => 122u16,
            SyntaxKind::POINTER_TYPE => 123u16,
            SyntaxKind::ARRAY_TYPE => 124u16,
            SyntaxKind::SLICE_TYPE => 125u16,
            SyntaxKind::REFERENCE_TYPE => 126u16,
            SyntaxKind::PLACEHOLDER_TYPE => 127u16,
            SyntaxKind::FN_POINTER_TYPE => 128u16,
            SyntaxKind::FOR_TYPE => 129u16,
            SyntaxKind::IMPL_TRAIT_TYPE => 130u16,
            SyntaxKind::DYN_TRAIT_TYPE => 131u16,
            SyntaxKind::REF_PAT => 132u16,
            SyntaxKind::BIND_PAT => 133u16,
            SyntaxKind::PLACEHOLDER_PAT => 134u16,
            SyntaxKind::PATH_PAT => 135u16,
            SyntaxKind::STRUCT_PAT => 136u16,
            SyntaxKind::FIELD_PAT_LIST => 137u16,
            SyntaxKind::TUPLE_STRUCT_PAT => 138u16,
            SyntaxKind::TUPLE_PAT => 139u16,
            SyntaxKind::SLICE_PAT => 140u16,
            SyntaxKind::RANGE_PAT => 141u16,
            SyntaxKind::TUPLE_EXPR => 142u16,
            SyntaxKind::ARRAY_EXPR => 143u16,
            SyntaxKind::PAREN_EXPR => 144u16,
            SyntaxKind::PATH_EXPR => 145u16,
            SyntaxKind::LAMBDA_EXPR => 146u16,
            SyntaxKind::IF_EXPR => 147u16,
            SyntaxKind::WHILE_EXPR => 148u16,
            SyntaxKind::CONDITION => 149u16,
            SyntaxKind::LOOP_EXPR => 150u16,
            SyntaxKind::FOR_EXPR => 151u16,
            SyntaxKind::CONTINUE_EXPR => 152u16,
            SyntaxKind::BREAK_EXPR => 153u16,
            SyntaxKind::LABEL => 154u16,
            SyntaxKind::BLOCK_EXPR => 155u16,
            SyntaxKind::RETURN_EXPR => 156u16,
            SyntaxKind::MATCH_EXPR => 157u16,
            SyntaxKind::MATCH_ARM_LIST => 158u16,
            SyntaxKind::MATCH_ARM => 159u16,
            SyntaxKind::MATCH_GUARD => 160u16,
            SyntaxKind::STRUCT_LIT => 161u16,
            SyntaxKind::NAMED_FIELD_LIST => 162u16,
            SyntaxKind::NAMED_FIELD => 163u16,
            SyntaxKind::CALL_EXPR => 164u16,
            SyntaxKind::INDEX_EXPR => 165u16,
            SyntaxKind::METHOD_CALL_EXPR => 166u16,
            SyntaxKind::FIELD_EXPR => 167u16,
            SyntaxKind::TRY_EXPR => 168u16,
            SyntaxKind::CAST_EXPR => 169u16,
            SyntaxKind::REF_EXPR => 170u16,
            SyntaxKind::PREFIX_EXPR => 171u16,
            SyntaxKind::RANGE_EXPR => 172u16,
            SyntaxKind::BIN_EXPR => 173u16,
            SyntaxKind::BLOCK => 174u16,
            SyntaxKind::EXTERN_BLOCK => 175u16,
            SyntaxKind::EXTERN_ITEM_LIST => 176u16,
            SyntaxKind::ENUM_VARIANT => 177u16,
            SyntaxKind::NAMED_FIELD_DEF_LIST => 178u16,
            SyntaxKind::NAMED_FIELD_DEF => 179u16,
            SyntaxKind::POS_FIELD_LIST => 180u16,
            SyntaxKind::POS_FIELD => 181u16,
            SyntaxKind::ENUM_VARIANT_LIST => 182u16,
            SyntaxKind::ITEM_LIST => 183u16,
            SyntaxKind::ATTR => 184u16,
            SyntaxKind::META_ITEM => 185u16,
            SyntaxKind::USE_TREE => 186u16,
            SyntaxKind::USE_TREE_LIST => 187u16,
            SyntaxKind::PATH => 188u16,
            SyntaxKind::PATH_SEGMENT => 189u16,
            SyntaxKind::LITERAL => 190u16,
            SyntaxKind::ALIAS => 191u16,
            SyntaxKind::VISIBILITY => 192u16,
            SyntaxKind::WHERE_CLAUSE => 193u16,
            SyntaxKind::WHERE_PRED => 194u16,
            SyntaxKind::ABI => 195u16,
            SyntaxKind::NAME => 196u16,
            SyntaxKind::NAME_REF => 197u16,
            SyntaxKind::LET_STMT => 198u16,
            SyntaxKind::EXPR_STMT => 199u16,
            SyntaxKind::TYPE_PARAM_LIST => 200u16,
            SyntaxKind::LIFETIME_PARAM => 201u16,
            SyntaxKind::TYPE_PARAM => 202u16,
            SyntaxKind::TYPE_ARG_LIST => 203u16,
            SyntaxKind::LIFETIME_ARG => 204u16,
            SyntaxKind::TYPE_ARG => 205u16,
            SyntaxKind::ASSOC_TYPE_ARG => 206u16,
            SyntaxKind::PARAM_LIST => 207u16,
            SyntaxKind::PARAM => 208u16,
            SyntaxKind::SELF_PARAM => 209u16,
            SyntaxKind::ARG_LIST => 210u16,
        }
    }

    /// The kind is that of a token, which has text of its own; the other
    /// kinds are those of composite nodes. The tokens stand first in the
    /// declaration order.
    pub open spec fn spec_is_token(self) -> bool {
        self.spec_code() < 103
    }

    /// Tells whether the kind is that of a token.
    #[verifier::when_used_as_spec(spec_is_token)]
    pub fn is_token(self) -> (r: bool)
        ensures
            r == self.spec_is_token(),
    {
        self.code() < 103
    }

    /// Different kinds have different codes.
    pub proof fn lemma_code_injective(a: SyntaxKind, b: SyntaxKind)
        requires
            a.spec_code() == b.spec_code(),
        ensures
            a == b,
    {
    }
}

} // verus!
