//! The configuration model: every recognized option of the external
//! formatter as an optional, typed field, together with its serialization
//! to the formatter's `key = value` configuration syntax.
//!
//! An unset field is omitted from the serialized text entirely, which tells
//! the external tool to apply its own default.

use vstd::prelude::*;

use crate::decimal::dec_str;
use crate::decimal::usize_to_string;

verus! {

#[derive(Clone, Copy)]
pub enum NewlineStyle {
    Auto,
    Windows,
    Unix,
    Native,
}

#[derive(Clone, Copy)]
pub enum IndentStyle {
    Visual,
    Block,
}

#[derive(Clone, Copy)]
pub enum Heuristics {
    Off,
    Max,
    Default,
}

#[derive(Clone, Copy)]
pub enum HexLiteralCase {
    Preserve,
    Upper,
    Lower,
}

#[derive(Clone, Copy)]
pub enum ListTactic {
    Vertical,
    Horizontal,
    HorizontalVertical,
    Mixed,
}

#[derive(Clone, Copy)]
pub enum ImportGranularity {
    Preserve,
    Crate,
    Module,
    Item,
    One,
}

#[derive(Clone, Copy)]
pub enum GroupImportsTactic {
    Preserve,
    StdExternalCrate,
    One,
}

#[derive(Clone, Copy)]
pub enum TypeDensity {
    Compressed,
    Wide,
}

#[derive(Clone, Copy)]
pub enum SeparatorPlace {
    Front,
    Back,
}

#[derive(Clone, Copy)]
pub enum MatchArmLeadingPipe {
    Always,
    Never,
    Preserve,
}

#[derive(Clone, Copy)]
pub enum Density {
    Compressed,
    Tall,
    Vertical,
}

#[derive(Clone, Copy)]
pub enum BraceStyle {
    AlwaysNextLine,
    PreferSameLine,
    SameLineWhere,
}

#[derive(Clone, Copy)]
pub enum ControlBraceStyle {
    AlwaysSameLine,
    ClosingNextLine,
    AlwaysNextLine,
}

#[derive(Clone, Copy)]
pub enum SeparatorTactic {
    Always,
    Never,
    Vertical,
}

#[derive(Clone, Copy)]
pub enum Version {
    One,
    Two,
}

#[derive(Clone, Copy)]
pub enum Edition {
    Edition2015,
    Edition2018,
    Edition2021,
    Edition2024,
}

/// The external tag that `NewlineStyle` values serialize to.
pub open spec fn newline_style_tag(v: NewlineStyle) -> Seq<char> {
    match v {
        NewlineStyle::Auto => "Auto"@,
        NewlineStyle::Windows => "Windows"@,
        NewlineStyle::Unix => "Unix"@,
        NewlineStyle::Native => "Native"@,
    }
}

fn newline_style_str(v: NewlineStyle) -> (s: &'static str)
    ensures
        s@ == newline_style_tag(v),
{
    match v {
        NewlineStyle::Auto => "Auto",
        NewlineStyle::Windows => "Windows",
        NewlineStyle::Unix => "Unix",
        NewlineStyle::Native => "Native",
    }
}

/// The external tag that `IndentStyle` values serialize to.
pub open spec fn indent_style_tag(v: IndentStyle) -> Seq<char> {
    match v {
        IndentStyle::Visual => "Visual"@,
        IndentStyle::Block => "Block"@,
    }
}

fn indent_style_str(v: IndentStyle) -> (s: &'static str)
    ensures
        s@ == indent_style_tag(v),
{
    match v {
        IndentStyle::Visual => "Visual",
        IndentStyle::Block => "Block",
    }
}

/// The external tag that `Heuristics` values serialize to.
pub open spec fn heuristics_tag(v: Heuristics) -> Seq<char> {
    match v {
        Heuristics::Off => "Off"@,
        Heuristics::Max => "Max"@,
        Heuristics::Default => "Default"@,
    }
}

fn heuristics_str(v: Heuristics) -> (s: &'static str)
    ensures
        s@ == heuristics_tag(v),
{
    match v {
        Heuristics::Off => "Off",
        Heuristics::Max => "Max",
        Heuristics::Default => "Default",
    }
}

/// The external tag that `HexLiteralCase` values serialize to.
pub open spec fn hex_literal_case_tag(v: HexLiteralCase) -> Seq<char> {
    match v {
        HexLiteralCase::Preserve => "Preserve"@,
        HexLiteralCase::Upper => "Upper"@,
        HexLiteralCase::Lower => "Lower"@,
    }
}

fn hex_literal_case_str(v: HexLiteralCase) -> (s: &'static str)
    ensures
        s@ == hex_literal_case_tag(v),
{
    match v {
        HexLiteralCase::Preserve => "Preserve",
        HexLiteralCase::Upper => "Upper",
        HexLiteralCase::Lower => "Lower",
    }
}

/// The external tag that `ListTactic` values serialize to.
pub open spec fn list_tactic_tag(v: ListTactic) -> Seq<char> {
    match v {
        ListTactic::Vertical => "Vertical"@,
        ListTactic::Horizontal => "Horizontal"@,
        ListTactic::HorizontalVertical => "HorizontalVertical"@,
        ListTactic::Mixed => "Mixed"@,
    }
}

fn list_tactic_str(v: ListTactic) -> (s: &'static str)
    ensures
        s@ == list_tactic_tag(v),
{
    match v {
        ListTactic::Vertical => "Vertical",
        ListTactic::Horizontal => "Horizontal",
        ListTactic::HorizontalVertical => "HorizontalVertical",
        ListTactic::Mixed => "Mixed",
    }
}

/// The external tag that `ImportGranularity` values serialize to.
pub open spec fn import_granularity_tag(v: ImportGranularity) -> Seq<char> {
    match v {
        ImportGranularity::Preserve => "Preserve"@,
        ImportGranularity::Crate => "Crate"@,
        ImportGranularity::Module => "Module"@,
        ImportGranularity::Item => "Item"@,
        ImportGranularity::One => "One"@,
    }
}

fn import_granularity_str(v: ImportGranularity) -> (s: &'static str)
    ensures
        s@ == import_granularity_tag(v),
{
    match v {
        ImportGranularity::Preserve => "Preserve",
        ImportGranularity::Crate => "Crate",
        ImportGranularity::Module => "Module",
        ImportGranularity::Item => "Item",
        ImportGranularity::One => "One",
    }
}

/// The external tag that `GroupImportsTactic` values serialize to.
pub open spec fn group_imports_tactic_tag(v: GroupImportsTactic) -> Seq<char> {
    match v {
        GroupImportsTactic::Preserve => "Preserve"@,
        GroupImportsTactic::StdExternalCrate => "StdExternalCrate"@,
        GroupImportsTactic::One => "One"@,
    }
}

fn group_imports_tactic_str(v: GroupImportsTactic) -> (s: &'static str)
    ensures
        s@ == group_imports_tactic_tag(v),
{
    match v {
        GroupImportsTactic::Preserve => "Preserve",
        GroupImportsTactic::StdExternalCrate => "StdExternalCrate",
        GroupImportsTactic::One => "One",
    }
}

/// The external tag that `TypeDensity` values serialize to.
pub open spec fn type_density_tag(v: TypeDensity) -> Seq<char> {
    match v {
        TypeDensity::Compressed => "Compressed"@,
        TypeDensity::Wide => "Wide"@,
    }
}

fn type_density_str(v: TypeDensity) -> (s: &'static str)
    ensures
        s@ == type_density_tag(v),
{
    match v {
        TypeDensity::Compressed => "Compressed",
        TypeDensity::Wide => "Wide",
    }
}

/// The external tag that `SeparatorPlace` values serialize to.
pub open spec fn separator_place_tag(v: SeparatorPlace) -> Seq<char> {
    match v {
        SeparatorPlace::Front => "Front"@,
        SeparatorPlace::Back => "Back"@,
    }
}

fn separator_place_str(v: SeparatorPlace) -> (s: &'static str)
    ensures
        s@ == separator_place_tag(v),
{
    match v {
        SeparatorPlace::Front => "Front",
        SeparatorPlace::Back => "Back",
    }
}

/// The external tag that `MatchArmLeadingPipe` values serialize to.
pub open spec fn match_arm_leading_pipe_tag(v: MatchArmLeadingPipe) -> Seq<char> {
    match v {
        MatchArmLeadingPipe::Always => "Always"@,
        MatchArmLeadingPipe::Never => "Never"@,
        MatchArmLeadingPipe::Preserve => "Preserve"@,
    }
}

fn match_arm_leading_pipe_str(v: MatchArmLeadingPipe) -> (s: &'static str)
    ensures
        s@ == match_arm_leading_pipe_tag(v),
{
    match v {
        MatchArmLeadingPipe::Always => "Always",
        MatchArmLeadingPipe::Never => "Never",
        MatchArmLeadingPipe::Preserve => "Preserve",
    }
}

/// The external tag that `Density` values serialize to.
pub open spec fn density_tag(v: Density) -> Seq<char> {
    match v {
        Density::Compressed => "Compressed"@,
        Density::Tall => "Tall"@,
        Density::Vertical => "Vertical"@,
    }
}

fn density_str(v: Density) -> (s: &'static str)
    ensures
        s@ == density_tag(v),
{
    match v {
        Density::Compressed => "Compressed",
        Density::Tall => "Tall",
        Density::Vertical => "Vertical",
    }
}

/// The external tag that `BraceStyle` values serialize to.
pub open spec fn brace_style_tag(v: BraceStyle) -> Seq<char> {
    match v {
        BraceStyle::AlwaysNextLine => "AlwaysNextLine"@,
        BraceStyle::PreferSameLine => "PreferSameLine"@,
        BraceStyle::SameLineWhere => "SameLineWhere"@,
    }
}

fn brace_style_str(v: BraceStyle) -> (s: &'static str)
    ensures
        s@ == brace_style_tag(v),
{
    match v {
        BraceStyle::AlwaysNextLine => "AlwaysNextLine",
        BraceStyle::PreferSameLine => "PreferSameLine",
        BraceStyle::SameLineWhere => "SameLineWhere",
    }
}

/// The external tag that `ControlBraceStyle` values serialize to.
pub open spec fn control_brace_style_tag(v: ControlBraceStyle) -> Seq<char> {
    match v {
        ControlBraceStyle::AlwaysSameLine => "AlwaysSameLine"@,
        ControlBraceStyle::ClosingNextLine => "ClosingNextLine"@,
        ControlBraceStyle::AlwaysNextLine => "AlwaysNextLine"@,
    }
}

fn control_brace_style_str(v: ControlBraceStyle) -> (s: &'static str)
    ensures
        s@ == control_brace_style_tag(v),
{
    match v {
        ControlBraceStyle::AlwaysSameLine => "AlwaysSameLine",
        ControlBraceStyle::ClosingNextLine => "ClosingNextLine",
        ControlBraceStyle::AlwaysNextLine => "AlwaysNextLine",
    }
}

/// The external tag that `SeparatorTactic` values serialize to.
pub open spec fn separator_tactic_tag(v: SeparatorTactic) -> Seq<char> {
    match v {
        SeparatorTactic::Always => "Always"@,
        SeparatorTactic::Never => "Never"@,
        SeparatorTactic::Vertical => "Vertical"@,
    }
}

fn separator_tactic_str(v: SeparatorTactic) -> (s: &'static str)
    ensures
        s@ == separator_tactic_tag(v),
{
    match v {
        SeparatorTactic::Always => "Always",
        SeparatorTactic::Never => "Never",
        SeparatorTactic::Vertical => "Vertical",
    }
}

/// The external tag that `Version` values serialize to.
pub open spec fn version_tag(v: Version) -> Seq<char> {
    match v {
        Version::One => "One"@,
        Version::Two => "Two"@,
    }
}

fn version_str(v: Version) -> (s: &'static str)
    ensures
        s@ == version_tag(v),
{
    match v {
        Version::One => "One",
        Version::Two => "Two",
    }
}

/// The external tag that `Edition` values serialize to.
pub open spec fn edition_tag(v: Edition) -> Seq<char> {
    match v {
        Edition::Edition2015 => "2015"@,
        Edition::Edition2018 => "2018"@,
        Edition::Edition2021 => "2021"@,
        Edition::Edition2024 => "2024"@,
    }
}

fn edition_str(v: Edition) -> (s: &'static str)
    ensures
        s@ == edition_tag(v),
{
    match v {
        Edition::Edition2015 => "2015",
        Edition::Edition2018 => "2018",
        Edition::Edition2021 => "2021",
        Edition::Edition2024 => "2024",
    }
}

/// The configuration record: one optional field per recognized option of
/// the external formatter. A `None` field is omitted from the serialized
/// form; invalid enumeration values are unrepresentable.
#[derive(Clone, Copy)]
#[verifier::ext_equal]
pub struct Config {
    pub max_width: Option<usize>,
    pub hard_tabs: Option<bool>,
    pub tab_spaces: Option<usize>,
    pub newline_style: Option<NewlineStyle>,
    pub indent_style: Option<IndentStyle>,
    pub use_small_heuristics: Option<Heuristics>,
    pub fn_call_width: Option<usize>,
    pub attr_fn_like_width: Option<usize>,
    pub struct_lit_width: Option<usize>,
    pub struct_variant_width: Option<usize>,
    pub array_width: Option<usize>,
    pub chain_width: Option<usize>,
    pub single_line_if_else_max_width: Option<usize>,
    pub wrap_comments: Option<bool>,
    pub format_code_in_doc_comments: Option<bool>,
    pub doc_comment_code_block_width: Option<usize>,
    pub comment_width: Option<usize>,
    pub normalize_comments: Option<bool>,
    pub normalize_doc_attributes: Option<bool>,
    pub format_strings: Option<bool>,
    pub format_macro_matchers: Option<bool>,
    pub format_macro_bodies: Option<bool>,
    pub hex_literal_case: Option<HexLiteralCase>,
    pub empty_item_single_line: Option<bool>,
    pub struct_lit_single_line: Option<bool>,
    pub fn_single_line: Option<bool>,
    pub where_single_line: Option<bool>,
    pub imports_indent: Option<IndentStyle>,
    pub imports_layout: Option<ListTactic>,
    pub imports_granularity: Option<ImportGranularity>,
    pub group_imports: Option<GroupImportsTactic>,
    pub merge_imports: Option<bool>,
    pub reorder_imports: Option<bool>,
    pub reorder_modules: Option<bool>,
    pub reorder_impl_items: Option<bool>,
    pub type_punctuation_density: Option<TypeDensity>,
    pub space_before_colon: Option<bool>,
    pub space_after_colon: Option<bool>,
    pub spaces_around_ranges: Option<bool>,
    pub binop_separator: Option<SeparatorPlace>,
    pub remove_nested_parens: Option<bool>,
    pub combine_control_expr: Option<bool>,
    pub short_array_element_width_threshold: Option<usize>,
    pub overflow_delimited_expr: Option<bool>,
    pub struct_field_align_threshold: Option<usize>,
    pub enum_discrim_align_threshold: Option<usize>,
    pub match_arm_blocks: Option<bool>,
    pub match_arm_leading_pipes: Option<MatchArmLeadingPipe>,
    pub force_multiline_blocks: Option<bool>,
    pub fn_args_layout: Option<Density>,
    pub brace_style: Option<BraceStyle>,
    pub control_brace_style: Option<ControlBraceStyle>,
    pub trailing_semicolon: Option<bool>,
    pub trailing_comma: Option<SeparatorTactic>,
    pub match_block_trailing_comma: Option<bool>,
    pub blank_lines_upper_bound: Option<usize>,
    pub blank_lines_lower_bound: Option<usize>,
    pub edition: Option<Edition>,
    pub version: Option<Version>,
    pub inline_attribute_width: Option<usize>,
    pub format_generated_files: Option<bool>,
    pub merge_derives: Option<bool>,
    pub use_try_shorthand: Option<bool>,
    pub use_field_init_shorthand: Option<bool>,
    pub force_explicit_abi: Option<bool>,
    pub condense_wildcard_suffixes: Option<bool>,
}

/// The record with every field unset.
pub open spec fn spec_unset() -> Config {
    Config {
        max_width: None,
        hard_tabs: None,
        tab_spaces: None,
        newline_style: None,
        indent_style: None,
        use_small_heuristics: None,
        fn_call_width: None,
        attr_fn_like_width: None,
        struct_lit_width: None,
        struct_variant_width: None,
        array_width: None,
        chain_width: None,
        single_line_if_else_max_width: None,
        wrap_comments: None,
        format_code_in_doc_comments: None,
        doc_comment_code_block_width: None,
        comment_width: None,
        normalize_comments: None,
        normalize_doc_attributes: None,
        format_strings: None,
        format_macro_matchers: None,
        format_macro_bodies: None,
        hex_literal_case: None,
        empty_item_single_line: None,
        struct_lit_single_line: None,
        fn_single_line: None,
        where_single_line: None,
        imports_indent: None,
        imports_layout: None,
        imports_granularity: None,
        group_imports: None,
        merge_imports: None,
        reorder_imports: None,
        reorder_modules: None,
        reorder_impl_items: None,
        type_punctuation_density: None,
        space_before_colon: None,
        space_after_colon: None,
        spaces_around_ranges: None,
        binop_separator: None,
        remove_nested_parens: None,
        combine_control_expr: None,
        short_array_element_width_threshold: None,
        overflow_delimited_expr: None,
        struct_field_align_threshold: None,
        enum_discrim_align_threshold: None,
        match_arm_blocks: None,
        match_arm_leading_pipes: None,
        force_multiline_blocks: None,
        fn_args_layout: None,
        brace_style: None,
        control_brace_style: None,
        trailing_semicolon: None,
        trailing_comma: None,
        match_block_trailing_comma: None,
        blank_lines_upper_bound: None,
        blank_lines_lower_bound: None,
        edition: None,
        version: None,
        inline_attribute_width: None,
        format_generated_files: None,
        merge_derives: None,
        use_try_shorthand: None,
        use_field_init_shorthand: None,
        force_explicit_abi: None,
        condense_wildcard_suffixes: None,
    }
}

impl Default for Config {
    /// Builds the record with every field unset.
    fn default() -> (r: Config)
        ensures
            r == spec_unset(),
    {
        Config {
            max_width: None,
            hard_tabs: None,
            tab_spaces: None,
            newline_style: None,
            indent_style: None,
            use_small_heuristics: None,
            fn_call_width: None,
            attr_fn_like_width: None,
            struct_lit_width: None,
            struct_variant_width: None,
            array_width: None,
            chain_width: None,
            single_line_if_else_max_width: None,
            wrap_comments: None,
            format_code_in_doc_comments: None,
            doc_comment_code_block_width: None,
            comment_width: None,
            normalize_comments: None,
            normalize_doc_attributes: None,
            format_strings: None,
            format_macro_matchers: None,
            format_macro_bodies: None,
            hex_literal_case: None,
            empty_item_single_line: None,
            struct_lit_single_line: None,
            fn_single_line: None,
            where_single_line: None,
            imports_indent: None,
            imports_layout: None,
            imports_granularity: None,
            group_imports: None,
            merge_imports: None,
            reorder_imports: None,
            reorder_modules: None,
            reorder_impl_items: None,
            type_punctuation_density: None,
            space_before_colon: None,
            space_after_colon: None,
            spaces_around_ranges: None,
            binop_separator: None,
            remove_nested_parens: None,
            combine_control_expr: None,
            short_array_element_width_threshold: None,
            overflow_delimited_expr: None,
            struct_field_align_threshold: None,
            enum_discrim_align_threshold: None,
            match_arm_blocks: None,
            match_arm_leading_pipes: None,
            force_multiline_blocks: None,
            fn_args_layout: None,
            brace_style: None,
            control_brace_style: None,
            trailing_semicolon: None,
            trailing_comma: None,
            match_block_trailing_comma: None,
            blank_lines_upper_bound: None,
            blank_lines_lower_bound: None,
            edition: None,
            version: None,
            inline_attribute_width: None,
            format_generated_files: None,
            merge_derives: None,
            use_try_shorthand: None,
            use_field_init_shorthand: None,
            force_explicit_abi: None,
            condense_wildcard_suffixes: None,
        }
    }
}

/// A name for each configuration field, for speaking about the serialized
/// entries one field at a time.
pub enum Field {
    MaxWidth,
    HardTabs,
    TabSpaces,
    NewlineStyle,
    IndentStyle,
    UseSmallHeuristics,
    FnCallWidth,
    AttrFnLikeWidth,
    StructLitWidth,
    StructVariantWidth,
    ArrayWidth,
    ChainWidth,
    SingleLineIfElseMaxWidth,
    WrapComments,
    FormatCodeInDocComments,
    DocCommentCodeBlockWidth,
    CommentWidth,
    NormalizeComments,
    NormalizeDocAttributes,
    FormatStrings,
    FormatMacroMatchers,
    FormatMacroBodies,
    HexLiteralCase,
    EmptyItemSingleLine,
    StructLitSingleLine,
    FnSingleLine,
    WhereSingleLine,
    ImportsIndent,
    ImportsLayout,
    ImportsGranularity,
    GroupImports,
    MergeImports,
    ReorderImports,
    ReorderModules,
    ReorderImplItems,
    TypePunctuationDensity,
    SpaceBeforeColon,
    SpaceAfterColon,
    SpacesAroundRanges,
    BinopSeparator,
    RemoveNestedParens,
    CombineControlExpr,
    ShortArrayElementWidthThreshold,
    OverflowDelimitedExpr,
    StructFieldAlignThreshold,
    EnumDiscrimAlignThreshold,
    MatchArmBlocks,
    MatchArmLeadingPipes,
    ForceMultilineBlocks,
    FnArgsLayout,
    BraceStyle,
    ControlBraceStyle,
    TrailingSemicolon,
    TrailingComma,
    MatchBlockTrailingComma,
    BlankLinesUpperBound,
    BlankLinesLowerBound,
    Edition,
    Version,
    InlineAttributeWidth,
    FormatGeneratedFiles,
    MergeDerives,
    UseTryShorthand,
    UseFieldInitShorthand,
    ForceExplicitAbi,
    CondenseWildcardSuffixes,
}

/// Whether the named field is explicitly set in `c`.
pub open spec fn is_set(c: Config, f: Field) -> bool {
    match f {
        Field::MaxWidth => c.max_width is Some,
        Field::HardTabs => c.hard_tabs is Some,
        Field::TabSpaces => c.tab_spaces is Some,
        Field::NewlineStyle => c.newline_style is Some,
        Field::IndentStyle => c.indent_style is Some,
        Field::UseSmallHeuristics => c.use_small_heuristics is Some,
        Field::FnCallWidth => c.fn_call_width is Some,
        Field::AttrFnLikeWidth => c.attr_fn_like_width is Some,
        Field::StructLitWidth => c.struct_lit_width is Some,
        Field::StructVariantWidth => c.struct_variant_width is Some,
        Field::ArrayWidth => c.array_width is Some,
        Field::ChainWidth => c.chain_width is Some,
        Field::SingleLineIfElseMaxWidth => c.single_line_if_else_max_width is Some,
        Field::WrapComments => c.wrap_comments is Some,
        Field::FormatCodeInDocComments => c.format_code_in_doc_comments is Some,
        Field::DocCommentCodeBlockWidth => c.doc_comment_code_block_width is Some,
        Field::CommentWidth => c.comment_width is Some,
        Field::NormalizeComments => c.normalize_comments is Some,
        Field::NormalizeDocAttributes => c.normalize_doc_attributes is Some,
        Field::FormatStrings => c.format_strings is Some,
        Field::FormatMacroMatchers => c.format_macro_matchers is Some,
        Field::FormatMacroBodies => c.format_macro_bodies is Some,
        Field::HexLiteralCase => c.hex_literal_case is Some,
        Field::EmptyItemSingleLine => c.empty_item_single_line is Some,
        Field::StructLitSingleLine => c.struct_lit_single_line is Some,
        Field::FnSingleLine => c.fn_single_line is Some,
        Field::WhereSingleLine => c.where_single_line is Some,
        Field::ImportsIndent => c.imports_indent is Some,
        Field::ImportsLayout => c.imports_layout is Some,
        Field::ImportsGranularity => c.imports_granularity is Some,
        Field::GroupImports => c.group_imports is Some,
        Field::MergeImports => c.merge_imports is Some,
        Field::ReorderImports => c.reorder_imports is Some,
        Field::ReorderModules => c.reorder_modules is Some,
        Field::ReorderImplItems => c.reorder_impl_items is Some,
        Field::TypePunctuationDensity => c.type_punctuation_density is Some,
        Field::SpaceBeforeColon => c.space_before_colon is Some,
        Field::SpaceAfterColon => c.space_after_colon is Some,
        Field::SpacesAroundRanges => c.spaces_around_ranges is Some,
        Field::BinopSeparator => c.binop_separator is Some,
        Field::RemoveNestedParens => c.remove_nested_parens is Some,
        Field::CombineControlExpr => c.combine_control_expr is Some,
        Field::ShortArrayElementWidthThreshold => c.short_array_element_width_threshold is Some,
        Field::OverflowDelimitedExpr => c.overflow_delimited_expr is Some,
        Field::StructFieldAlignThreshold => c.struct_field_align_threshold is Some,
        Field::EnumDiscrimAlignThreshold => c.enum_discrim_align_threshold is Some,
        Field::MatchArmBlocks => c.match_arm_blocks is Some,
        Field::MatchArmLeadingPipes => c.match_arm_leading_pipes is Some,
        Field::ForceMultilineBlocks => c.force_multiline_blocks is Some,
        Field::FnArgsLayout => c.fn_args_layout is Some,
        Field::BraceStyle => c.brace_style is Some,
        Field::ControlBraceStyle => c.control_brace_style is Some,
        Field::TrailingSemicolon => c.trailing_semicolon is Some,
        Field::TrailingComma => c.trailing_comma is Some,
        Field::MatchBlockTrailingComma => c.match_block_trailing_comma is Some,
        Field::BlankLinesUpperBound => c.blank_lines_upper_bound is Some,
        Field::BlankLinesLowerBound => c.blank_lines_lower_bound is Some,
        Field::Edition => c.edition is Some,
        Field::Version => c.version is Some,
        Field::InlineAttributeWidth => c.inline_attribute_width is Some,
        Field::FormatGeneratedFiles => c.format_generated_files is Some,
        Field::MergeDerives => c.merge_derives is Some,
        Field::UseTryShorthand => c.use_try_shorthand is Some,
        Field::UseFieldInitShorthand => c.use_field_init_shorthand is Some,
        Field::ForceExplicitAbi => c.force_explicit_abi is Some,
        Field::CondenseWildcardSuffixes => c.condense_wildcard_suffixes is Some,
    }
}

/// The key under which the named field is serialized.
pub open spec fn key_of(f: Field) -> Seq<char> {
    match f {
        Field::MaxWidth => "max_width"@,
        Field::HardTabs => "hard_tabs"@,
        Field::TabSpaces => "tab_spaces"@,
        Field::NewlineStyle => "newline_style"@,
        Field::IndentStyle => "indent_style"@,
        Field::UseSmallHeuristics => "use_small_heuristics"@,
        Field::FnCallWidth => "fn_call_width"@,
        Field::AttrFnLikeWidth => "attr_fn_like_width"@,
        Field::StructLitWidth => "struct_lit_width"@,
        Field::StructVariantWidth => "struct_variant_width"@,
        Field::ArrayWidth => "array_width"@,
        Field::ChainWidth => "chain_width"@,
        Field::SingleLineIfElseMaxWidth => "single_line_if_else_max_width"@,
        Field::WrapComments => "wrap_comments"@,
        Field::FormatCodeInDocComments => "format_code_in_doc_comments"@,
        Field::DocCommentCodeBlockWidth => "doc_comment_code_block_width"@,
        Field::CommentWidth => "comment_width"@,
        Field::NormalizeComments => "normalize_comments"@,
        Field::NormalizeDocAttributes => "normalize_doc_attributes"@,
        Field::FormatStrings => "format_strings"@,
        Field::FormatMacroMatchers => "format_macro_matchers"@,
        Field::FormatMacroBodies => "format_macro_bodies"@,
        Field::HexLiteralCase => "hex_literal_case"@,
        Field::EmptyItemSingleLine => "empty_item_single_line"@,
        Field::StructLitSingleLine => "struct_lit_single_line"@,
        Field::FnSingleLine => "fn_single_line"@,
        Field::WhereSingleLine => "where_single_line"@,
        Field::ImportsIndent => "imports_indent"@,
        Field::ImportsLayout => "imports_layout"@,
        Field::ImportsGranularity => "imports_granularity"@,
        Field::GroupImports => "group_imports"@,
        Field::MergeImports => "merge_imports"@,
        Field::ReorderImports => "reorder_imports"@,
        Field::ReorderModules => "reorder_modules"@,
        Field::ReorderImplItems => "reorder_impl_items"@,
        Field::TypePunctuationDensity => "type_punctuation_density"@,
        Field::SpaceBeforeColon => "space_before_colon"@,
        Field::SpaceAfterColon => "space_after_colon"@,
        Field::SpacesAroundRanges => "spaces_around_ranges"@,
        Field::BinopSeparator => "binop_separator"@,
        Field::RemoveNestedParens => "remove_nested_parens"@,
        Field::CombineControlExpr => "combine_control_expr"@,
        Field::ShortArrayElementWidthThreshold => "short_array_element_width_threshold"@,
        Field::OverflowDelimitedExpr => "overflow_delimited_expr"@,
        Field::StructFieldAlignThreshold => "struct_field_align_threshold"@,
        Field::EnumDiscrimAlignThreshold => "enum_discrim_align_threshold"@,
        Field::MatchArmBlocks => "match_arm_blocks"@,
        Field::MatchArmLeadingPipes => "match_arm_leading_pipes"@,
        Field::ForceMultilineBlocks => "force_multiline_blocks"@,
        Field::FnArgsLayout => "fn_args_layout"@,
        Field::BraceStyle => "brace_style"@,
        Field::ControlBraceStyle => "control_brace_style"@,
        Field::TrailingSemicolon => "trailing_semicolon"@,
        Field::TrailingComma => "trailing_comma"@,
        Field::MatchBlockTrailingComma => "match_block_trailing_comma"@,
        Field::BlankLinesUpperBound => "blank_lines_upper_bound"@,
        Field::BlankLinesLowerBound => "blank_lines_lower_bound"@,
        Field::Edition => "edition"@,
        Field::Version => "version"@,
        Field::InlineAttributeWidth => "inline_attribute_width"@,
        Field::FormatGeneratedFiles => "format_generated_files"@,
        Field::MergeDerives => "merge_derives"@,
        Field::UseTryShorthand => "use_try_shorthand"@,
        Field::UseFieldInitShorthand => "use_field_init_shorthand"@,
        Field::ForceExplicitAbi => "force_explicit_abi"@,
        Field::CondenseWildcardSuffixes => "condense_wildcard_suffixes"@,
    }
}

/// Whether the external tool guarantees continued support for the field;
/// the rest are provisional (unstable).
pub open spec fn stable(f: Field) -> bool {
    match f {
        Field::MaxWidth => true,
        Field::HardTabs => true,
        Field::TabSpaces => true,
        Field::NewlineStyle => true,
        Field::IndentStyle => false,
        Field::UseSmallHeuristics => true,
        Field::FnCallWidth => true,
        Field::AttrFnLikeWidth => true,
        Field::StructLitWidth => true,
        Field::StructVariantWidth => true,
        Field::ArrayWidth => true,
        Field::ChainWidth => true,
        Field::SingleLineIfElseMaxWidth => true,
        Field::WrapComments => false,
        Field::FormatCodeInDocComments => false,
        Field::DocCommentCodeBlockWidth => false,
        Field::CommentWidth => false,
        Field::NormalizeComments => false,
        Field::NormalizeDocAttributes => false,
        Field::FormatStrings => false,
        Field::FormatMacroMatchers => false,
        Field::FormatMacroBodies => false,
        Field::HexLiteralCase => false,
        Field::EmptyItemSingleLine => false,
        Field::StructLitSingleLine => false,
        Field::FnSingleLine => false,
        Field::WhereSingleLine => false,
        Field::ImportsIndent => false,
        Field::ImportsLayout => false,
        Field::ImportsGranularity => false,
        Field::GroupImports => false,
        Field::MergeImports => false,
        Field::ReorderImports => true,
        Field::ReorderModules => true,
        Field::ReorderImplItems => false,
        Field::TypePunctuationDensity => false,
        Field::SpaceBeforeColon => false,
        Field::SpaceAfterColon => false,
        Field::SpacesAroundRanges => false,
        Field::BinopSeparator => false,
        Field::RemoveNestedParens => true,
        Field::CombineControlExpr => false,
        Field::ShortArrayElementWidthThreshold => true,
        Field::OverflowDelimitedExpr => false,
        Field::StructFieldAlignThreshold => false,
        Field::EnumDiscrimAlignThreshold => false,
        Field::MatchArmBlocks => false,
        Field::MatchArmLeadingPipes => true,
        Field::ForceMultilineBlocks => false,
        Field::FnArgsLayout => true,
        Field::BraceStyle => false,
        Field::ControlBraceStyle => false,
        Field::TrailingSemicolon => false,
        Field::TrailingComma => false,
        Field::MatchBlockTrailingComma => true,
        Field::BlankLinesUpperBound => false,
        Field::BlankLinesLowerBound => false,
        Field::Edition => true,
        Field::Version => false,
        Field::InlineAttributeWidth => false,
        Field::FormatGeneratedFiles => false,
        Field::MergeDerives => true,
        Field::UseTryShorthand => true,
        Field::UseFieldInitShorthand => true,
        Field::ForceExplicitAbi => true,
        Field::CondenseWildcardSuffixes => false,
    }
}

/// A value rendered inside double quotes, as string-valued entries are.
pub open spec fn quoted(s: Seq<char>) -> Seq<char> {
    "\""@ + s + "\""@
}

/// The text of a boolean value.
pub open spec fn bool_lit(b: bool) -> Seq<char> {
    if b {
        "true"@
    } else {
        "false"@
    }
}

fn bool_str(b: bool) -> (s: &'static str)
    ensures
        s@ == bool_lit(b),
{
    if b {
        "true"
    } else {
        "false"
    }
}

/// The serialized value of the named field: numbers as decimal literals,
/// booleans literally, enumerations as their quoted external tag.
pub open spec fn value_of(c: Config, f: Field) -> Seq<char> {
    match f {
        Field::MaxWidth => dec_str(c.max_width->0 as nat),
        Field::HardTabs => bool_lit(c.hard_tabs->0),
        Field::TabSpaces => dec_str(c.tab_spaces->0 as nat),
        Field::NewlineStyle => quoted(newline_style_tag(c.newline_style->0)),
        Field::IndentStyle => quoted(indent_style_tag(c.indent_style->0)),
        Field::UseSmallHeuristics => quoted(heuristics_tag(c.use_small_heuristics->0)),
        Field::FnCallWidth => dec_str(c.fn_call_width->0 as nat),
        Field::AttrFnLikeWidth => dec_str(c.attr_fn_like_width->0 as nat),
        Field::StructLitWidth => dec_str(c.struct_lit_width->0 as nat),
        Field::StructVariantWidth => dec_str(c.struct_variant_width->0 as nat),
        Field::ArrayWidth => dec_str(c.array_width->0 as nat),
        Field::ChainWidth => dec_str(c.chain_width->0 as nat),
        Field::SingleLineIfElseMaxWidth => dec_str(c.single_line_if_else_max_width->0 as nat),
        Field::WrapComments => bool_lit(c.wrap_comments->0),
        Field::FormatCodeInDocComments => bool_lit(c.format_code_in_doc_comments->0),
        Field::DocCommentCodeBlockWidth => dec_str(c.doc_comment_code_block_width->0 as nat),
        Field::CommentWidth => dec_str(c.comment_width->0 as nat),
        Field::NormalizeComments => bool_lit(c.normalize_comments->0),
        Field::NormalizeDocAttributes => bool_lit(c.normalize_doc_attributes->0),
        Field::FormatStrings => bool_lit(c.format_strings->0),
        Field::FormatMacroMatchers => bool_lit(c.format_macro_matchers->0),
        Field::FormatMacroBodies => bool_lit(c.format_macro_bodies->0),
        Field::HexLiteralCase => quoted(hex_literal_case_tag(c.hex_literal_case->0)),
        Field::EmptyItemSingleLine => bool_lit(c.empty_item_single_line->0),
        Field::StructLitSingleLine => bool_lit(c.struct_lit_single_line->0),
        Field::FnSingleLine => bool_lit(c.fn_single_line->0),
        Field::WhereSingleLine => bool_lit(c.where_single_line->0),
        Field::ImportsIndent => quoted(indent_style_tag(c.imports_indent->0)),
        Field::ImportsLayout => quoted(list_tactic_tag(c.imports_layout->0)),
        Field::ImportsGranularity => quoted(import_granularity_tag(c.imports_granularity->0)),
        Field::GroupImports => quoted(group_imports_tactic_tag(c.group_imports->0)),
        Field::MergeImports => bool_lit(c.merge_imports->0),
        Field::ReorderImports => bool_lit(c.reorder_imports->0),
        Field::ReorderModules => bool_lit(c.reorder_modules->0),
        Field::ReorderImplItems => bool_lit(c.reorder_impl_items->0),
        Field::TypePunctuationDensity => quoted(type_density_tag(c.type_punctuation_density->0)),
        Field::SpaceBeforeColon => bool_lit(c.space_before_colon->0),
        Field::SpaceAfterColon => bool_lit(c.space_after_colon->0),
        Field::SpacesAroundRanges => bool_lit(c.spaces_around_ranges->0),
        Field::BinopSeparator => quoted(separator_place_tag(c.binop_separator->0)),
        Field::RemoveNestedParens => bool_lit(c.remove_nested_parens->0),
        Field::CombineControlExpr => bool_lit(c.combine_control_expr->0),
        Field::ShortArrayElementWidthThreshold => dec_str(c.short_array_element_width_threshold->0 as nat),
        Field::OverflowDelimitedExpr => bool_lit(c.overflow_delimited_expr->0),
        Field::StructFieldAlignThreshold => dec_str(c.struct_field_align_threshold->0 as nat),
        Field::EnumDiscrimAlignThreshold => dec_str(c.enum_discrim_align_threshold->0 as nat),
        Field::MatchArmBlocks => bool_lit(c.match_arm_blocks->0),
        Field::MatchArmLeadingPipes => quoted(match_arm_leading_pipe_tag(c.match_arm_leading_pipes->0)),
        Field::ForceMultilineBlocks => bool_lit(c.force_multiline_blocks->0),
        Field::FnArgsLayout => quoted(density_tag(c.fn_args_layout->0)),
        Field::BraceStyle => quoted(brace_style_tag(c.brace_style->0)),
        Field::ControlBraceStyle => quoted(control_brace_style_tag(c.control_brace_style->0)),
        Field::TrailingSemicolon => bool_lit(c.trailing_semicolon->0),
        Field::TrailingComma => quoted(separator_tactic_tag(c.trailing_comma->0)),
        Field::MatchBlockTrailingComma => bool_lit(c.match_block_trailing_comma->0),
        Field::BlankLinesUpperBound => dec_str(c.blank_lines_upper_bound->0 as nat),
        Field::BlankLinesLowerBound => dec_str(c.blank_lines_lower_bound->0 as nat),
        Field::Edition => quoted(edition_tag(c.edition->0)),
        Field::Version => quoted(version_tag(c.version->0)),
        Field::InlineAttributeWidth => dec_str(c.inline_attribute_width->0 as nat),
        Field::FormatGeneratedFiles => bool_lit(c.format_generated_files->0),
        Field::MergeDerives => bool_lit(c.merge_derives->0),
        Field::UseTryShorthand => bool_lit(c.use_try_shorthand->0),
        Field::UseFieldInitShorthand => bool_lit(c.use_field_init_shorthand->0),
        Field::ForceExplicitAbi => bool_lit(c.force_explicit_abi->0),
        Field::CondenseWildcardSuffixes => bool_lit(c.condense_wildcard_suffixes->0),
    }
}

/// The full serialized line of the named field.
pub open spec fn entry_line(c: Config, f: Field) -> Seq<char> {
    key_of(f) + " = "@ + value_of(c, f) + "\n"@
}

/// What the named field contributes to the serialized text.
pub open spec fn opt_entry(c: Config, f: Field) -> Seq<char> {
    if is_set(c, f) {
        entry_line(c, f)
    } else {
        Seq::empty()
    }
}

/// What the named field contributes to the sequence of serialized entries.
pub open spec fn opt_field(c: Config, f: Field) -> Seq<Field> {
    if is_set(c, f) {
        seq![f]
    } else {
        Seq::empty()
    }
}

/// The serialized lines of the fundamental group of fields.
pub open spec fn serial_fundamental(c: Config) -> Seq<char> {
    opt_entry(c, Field::MaxWidth) + opt_entry(c, Field::HardTabs) + opt_entry(c, Field::TabSpaces) + opt_entry(c, Field::NewlineStyle) + opt_entry(c, Field::IndentStyle)
}

/// The set fields of the fundamental group, in serialization order.
pub open spec fn fields_fundamental(c: Config) -> Seq<Field> {
    opt_field(c, Field::MaxWidth) + opt_field(c, Field::HardTabs) + opt_field(c, Field::TabSpaces) + opt_field(c, Field::NewlineStyle) + opt_field(c, Field::IndentStyle)
}

/// Whether the named field belongs to the fundamental group.
pub open spec fn in_fundamental(f: Field) -> bool {
    match f {
        Field::MaxWidth | Field::HardTabs | Field::TabSpaces | Field::NewlineStyle | Field::IndentStyle => true,
        _ => false,
    }
}

/// The serialized lines of the heuristics group of fields.
pub open spec fn serial_heuristics(c: Config) -> Seq<char> {
    opt_entry(c, Field::UseSmallHeuristics) + opt_entry(c, Field::FnCallWidth) + opt_entry(c, Field::AttrFnLikeWidth) + opt_entry(c, Field::StructLitWidth) + opt_entry(c, Field::StructVariantWidth) + opt_entry(c, Field::ArrayWidth) + opt_entry(c, Field::ChainWidth) + opt_entry(c, Field::SingleLineIfElseMaxWidth)
}

/// The set fields of the heuristics group, in serialization order.
pub open spec fn fields_heuristics(c: Config) -> Seq<Field> {
    opt_field(c, Field::UseSmallHeuristics) + opt_field(c, Field::FnCallWidth) + opt_field(c, Field::AttrFnLikeWidth) + opt_field(c, Field::StructLitWidth) + opt_field(c, Field::StructVariantWidth) + opt_field(c, Field::ArrayWidth) + opt_field(c, Field::ChainWidth) + opt_field(c, Field::SingleLineIfElseMaxWidth)
}

/// Whether the named field belongs to the heuristics group.
pub open spec fn in_heuristics(f: Field) -> bool {
    match f {
        Field::UseSmallHeuristics | Field::FnCallWidth | Field::AttrFnLikeWidth | Field::StructLitWidth | Field::StructVariantWidth | Field::ArrayWidth | Field::ChainWidth | Field::SingleLineIfElseMaxWidth => true,
        _ => false,
    }
}

/// The serialized lines of the comment wrapping group of fields.
pub open spec fn serial_comment_wrapping(c: Config) -> Seq<char> {
    opt_entry(c, Field::WrapComments) + opt_entry(c, Field::FormatCodeInDocComments) + opt_entry(c, Field::DocCommentCodeBlockWidth) + opt_entry(c, Field::CommentWidth) + opt_entry(c, Field::NormalizeComments)
}

/// The set fields of the comment wrapping group, in serialization order.
pub open spec fn fields_comment_wrapping(c: Config) -> Seq<Field> {
    opt_field(c, Field::WrapComments) + opt_field(c, Field::FormatCodeInDocComments) + opt_field(c, Field::DocCommentCodeBlockWidth) + opt_field(c, Field::CommentWidth) + opt_field(c, Field::NormalizeComments)
}

/// Whether the named field belongs to the comment wrapping group.
pub open spec fn in_comment_wrapping(f: Field) -> bool {
    match f {
        Field::WrapComments | Field::FormatCodeInDocComments | Field::DocCommentCodeBlockWidth | Field::CommentWidth | Field::NormalizeComments => true,
        _ => false,
    }
}

/// The serialized lines of the comment normalizing group of fields.
pub open spec fn serial_comment_normalizing(c: Config) -> Seq<char> {
    opt_entry(c, Field::NormalizeDocAttributes) + opt_entry(c, Field::FormatStrings) + opt_entry(c, Field::FormatMacroMatchers) + opt_entry(c, Field::FormatMacroBodies) + opt_entry(c, Field::HexLiteralCase)
}

/// The set fields of the comment normalizing group, in serialization order.
pub open spec fn fields_comment_normalizing(c: Config) -> Seq<Field> {
    opt_field(c, Field::NormalizeDocAttributes) + opt_field(c, Field::FormatStrings) + opt_field(c, Field::FormatMacroMatchers) + opt_field(c, Field::FormatMacroBodies) + opt_field(c, Field::HexLiteralCase)
}

/// Whether the named field belongs to the comment normalizing group.
pub open spec fn in_comment_normalizing(f: Field) -> bool {
    match f {
        Field::NormalizeDocAttributes | Field::FormatStrings | Field::FormatMacroMatchers | Field::FormatMacroBodies | Field::HexLiteralCase => true,
        _ => false,
    }
}

/// The serialized lines of the single line group of fields.
pub open spec fn serial_single_line(c: Config) -> Seq<char> {
    opt_entry(c, Field::EmptyItemSingleLine) + opt_entry(c, Field::StructLitSingleLine) + opt_entry(c, Field::FnSingleLine) + opt_entry(c, Field::WhereSingleLine)
}

/// The set fields of the single line group, in serialization order.
pub open spec fn fields_single_line(c: Config) -> Seq<Field> {
    opt_field(c, Field::EmptyItemSingleLine) + opt_field(c, Field::StructLitSingleLine) + opt_field(c, Field::FnSingleLine) + opt_field(c, Field::WhereSingleLine)
}

/// Whether the named field belongs to the single line group.
pub open spec fn in_single_line(f: Field) -> bool {
    match f {
        Field::EmptyItemSingleLine | Field::StructLitSingleLine | Field::FnSingleLine | Field::WhereSingleLine => true,
        _ => false,
    }
}

/// The serialized lines of the imports group of fields.
pub open spec fn serial_imports(c: Config) -> Seq<char> {
    opt_entry(c, Field::ImportsIndent) + opt_entry(c, Field::ImportsLayout) + opt_entry(c, Field::ImportsGranularity) + opt_entry(c, Field::GroupImports) + opt_entry(c, Field::MergeImports)
}

/// The set fields of the imports group, in serialization order.
pub open spec fn fields_imports(c: Config) -> Seq<Field> {
    opt_field(c, Field::ImportsIndent) + opt_field(c, Field::ImportsLayout) + opt_field(c, Field::ImportsGranularity) + opt_field(c, Field::GroupImports) + opt_field(c, Field::MergeImports)
}

/// Whether the named field belongs to the imports group.
pub open spec fn in_imports(f: Field) -> bool {
    match f {
        Field::ImportsIndent | Field::ImportsLayout | Field::ImportsGranularity | Field::GroupImports | Field::MergeImports => true,
        _ => false,
    }
}

/// The serialized lines of the ordering group of fields.
pub open spec fn serial_ordering(c: Config) -> Seq<char> {
    opt_entry(c, Field::ReorderImports) + opt_entry(c, Field::ReorderModules) + opt_entry(c, Field::ReorderImplItems)
}

/// The set fields of the ordering group, in serialization order.
pub open spec fn fields_ordering(c: Config) -> Seq<Field> {
    opt_field(c, Field::ReorderImports) + opt_field(c, Field::ReorderModules) + opt_field(c, Field::ReorderImplItems)
}

/// Whether the named field belongs to the ordering group.
pub open spec fn in_ordering(f: Field) -> bool {
    match f {
        Field::ReorderImports | Field::ReorderModules | Field::ReorderImplItems => true,
        _ => false,
    }
}

/// The serialized lines of the spaces group of fields.
pub open spec fn serial_spaces(c: Config) -> Seq<char> {
    opt_entry(c, Field::TypePunctuationDensity) + opt_entry(c, Field::SpaceBeforeColon) + opt_entry(c, Field::SpaceAfterColon) + opt_entry(c, Field::SpacesAroundRanges) + opt_entry(c, Field::BinopSeparator)
}

/// The set fields of the spaces group, in serialization order.
pub open spec fn fields_spaces(c: Config) -> Seq<Field> {
    opt_field(c, Field::TypePunctuationDensity) + opt_field(c, Field::SpaceBeforeColon) + opt_field(c, Field::SpaceAfterColon) + opt_field(c, Field::SpacesAroundRanges) + opt_field(c, Field::BinopSeparator)
}

/// Whether the named field belongs to the spaces group.
pub open spec fn in_spaces(f: Field) -> bool {
    match f {
        Field::TypePunctuationDensity | Field::SpaceBeforeColon | Field::SpaceAfterColon | Field::SpacesAroundRanges | Field::BinopSeparator => true,
        _ => false,
    }
}

/// The serialized lines of the expressions group of fields.
pub open spec fn serial_expressions(c: Config) -> Seq<char> {
    opt_entry(c, Field::RemoveNestedParens) + opt_entry(c, Field::CombineControlExpr) + opt_entry(c, Field::ShortArrayElementWidthThreshold) + opt_entry(c, Field::OverflowDelimitedExpr) + opt_entry(c, Field::StructFieldAlignThreshold) + opt_entry(c, Field::EnumDiscrimAlignThreshold) + opt_entry(c, Field::MatchArmBlocks)
}

/// The set fields of the expressions group, in serialization order.
pub open spec fn fields_expressions(c: Config) -> Seq<Field> {
    opt_field(c, Field::RemoveNestedParens) + opt_field(c, Field::CombineControlExpr) + opt_field(c, Field::ShortArrayElementWidthThreshold) + opt_field(c, Field::OverflowDelimitedExpr) + opt_field(c, Field::StructFieldAlignThreshold) + opt_field(c, Field::EnumDiscrimAlignThreshold) + opt_field(c, Field::MatchArmBlocks)
}

/// Whether the named field belongs to the expressions group.
pub open spec fn in_expressions(f: Field) -> bool {
    match f {
        Field::RemoveNestedParens | Field::CombineControlExpr | Field::ShortArrayElementWidthThreshold | Field::OverflowDelimitedExpr | Field::StructFieldAlignThreshold | Field::EnumDiscrimAlignThreshold | Field::MatchArmBlocks => true,
        _ => false,
    }
}

/// The serialized lines of the items group of fields.
pub open spec fn serial_items(c: Config) -> Seq<char> {
    opt_entry(c, Field::MatchArmLeadingPipes) + opt_entry(c, Field::ForceMultilineBlocks) + opt_entry(c, Field::FnArgsLayout) + opt_entry(c, Field::BraceStyle)
}

/// The set fields of the items group, in serialization order.
pub open spec fn fields_items(c: Config) -> Seq<Field> {
    opt_field(c, Field::MatchArmLeadingPipes) + opt_field(c, Field::ForceMultilineBlocks) + opt_field(c, Field::FnArgsLayout) + opt_field(c, Field::BraceStyle)
}

/// Whether the named field belongs to the items group.
pub open spec fn in_items(f: Field) -> bool {
    match f {
        Field::MatchArmLeadingPipes | Field::ForceMultilineBlocks | Field::FnArgsLayout | Field::BraceStyle => true,
        _ => false,
    }
}

/// The serialized lines of the control flow group of fields.
pub open spec fn serial_control_flow(c: Config) -> Seq<char> {
    opt_entry(c, Field::ControlBraceStyle) + opt_entry(c, Field::TrailingSemicolon) + opt_entry(c, Field::TrailingComma)
}

/// The set fields of the control flow group, in serialization order.
pub open spec fn fields_control_flow(c: Config) -> Seq<Field> {
    opt_field(c, Field::ControlBraceStyle) + opt_field(c, Field::TrailingSemicolon) + opt_field(c, Field::TrailingComma)
}

/// Whether the named field belongs to the control flow group.
pub open spec fn in_control_flow(f: Field) -> bool {
    match f {
        Field::ControlBraceStyle | Field::TrailingSemicolon | Field::TrailingComma => true,
        _ => false,
    }
}

/// The serialized lines of the layout group of fields.
pub open spec fn serial_layout(c: Config) -> Seq<char> {
    opt_entry(c, Field::MatchBlockTrailingComma) + opt_entry(c, Field::BlankLinesUpperBound) + opt_entry(c, Field::BlankLinesLowerBound) + opt_entry(c, Field::Edition) + opt_entry(c, Field::Version) + opt_entry(c, Field::InlineAttributeWidth) + opt_entry(c, Field::FormatGeneratedFiles)
}

/// The set fields of the layout group, in serialization order.
pub open spec fn fields_layout(c: Config) -> Seq<Field> {
    opt_field(c, Field::MatchBlockTrailingComma) + opt_field(c, Field::BlankLinesUpperBound) + opt_field(c, Field::BlankLinesLowerBound) + opt_field(c, Field::Edition) + opt_field(c, Field::Version) + opt_field(c, Field::InlineAttributeWidth) + opt_field(c, Field::FormatGeneratedFiles)
}

/// Whether the named field belongs to the layout group.
pub open spec fn in_layout(f: Field) -> bool {
    match f {
        Field::MatchBlockTrailingComma | Field::BlankLinesUpperBound | Field::BlankLinesLowerBound | Field::Edition | Field::Version | Field::InlineAttributeWidth | Field::FormatGeneratedFiles => true,
        _ => false,
    }
}

/// The serialized lines of the linty group of fields.
pub open spec fn serial_linty(c: Config) -> Seq<char> {
    opt_entry(c, Field::MergeDerives) + opt_entry(c, Field::UseTryShorthand) + opt_entry(c, Field::UseFieldInitShorthand) + opt_entry(c, Field::ForceExplicitAbi) + opt_entry(c, Field::CondenseWildcardSuffixes)
}

/// The set fields of the linty group, in serialization order.
pub open spec fn fields_linty(c: Config) -> Seq<Field> {
    opt_field(c, Field::MergeDerives) + opt_field(c, Field::UseTryShorthand) + opt_field(c, Field::UseFieldInitShorthand) + opt_field(c, Field::ForceExplicitAbi) + opt_field(c, Field::CondenseWildcardSuffixes)
}

/// Whether the named field belongs to the linty group.
pub open spec fn in_linty(f: Field) -> bool {
    match f {
        Field::MergeDerives | Field::UseTryShorthand | Field::UseFieldInitShorthand | Field::ForceExplicitAbi | Field::CondenseWildcardSuffixes => true,
        _ => false,
    }
}

/// The whole serialized configuration text of `c`: one `key = value` line
/// per set field, in declaration order, and nothing else.
pub open spec fn serial(c: Config) -> Seq<char> {
    serial_fundamental(c) + serial_heuristics(c) + serial_comment_wrapping(c) + serial_comment_normalizing(c) + serial_single_line(c) + serial_imports(c) + serial_ordering(c) + serial_spaces(c) + serial_expressions(c) + serial_items(c) + serial_control_flow(c) + serial_layout(c) + serial_linty(c)
}

/// The fields whose entries appear in the serialized text, in the order in
/// which their lines appear.
pub open spec fn set_fields(c: Config) -> Seq<Field> {
    fields_fundamental(c) + fields_heuristics(c) + fields_comment_wrapping(c) + fields_comment_normalizing(c) + fields_single_line(c) + fields_imports(c) + fields_ordering(c) + fields_spaces(c) + fields_expressions(c) + fields_items(c) + fields_control_flow(c) + fields_layout(c) + fields_linty(c)
}

/// How often the named field occurs in a sequence of entries.
pub open spec fn count_field(fs: Seq<Field>, f: Field) -> nat
    decreases fs.len(),
{
    if fs.len() == 0 {
        0
    } else {
        count_field(fs.drop_last(), f) + (if fs.last() == f {
            1nat
        } else {
            0nat
        })
    }
}

proof fn lemma_count_concat(a: Seq<Field>, b: Seq<Field>, f: Field)
    ensures
        count_field(a + b, f) == count_field(a, f) + count_field(b, f),
    decreases b.len(),
{
    if b.len() == 0 {
        assert(a + b =~= a);
    } else {
        lemma_count_concat(a, b.drop_last(), f);
        assert((a + b).drop_last() =~= a + b.drop_last());
        assert((a + b).last() == b.last());
    }
}

proof fn lemma_opt_field_count(c: Config, g: Field, f: Field)
    ensures
        count_field(opt_field(c, g), f) == if g == f && is_set(c, g) {
            1nat
        } else {
            0nat
        },
{
    if is_set(c, g) {
        assert(seq![g].drop_last().len() == 0);
        assert(count_field(seq![g].drop_last(), f) == 0);
        assert(seq![g].last() == g);
    }
}

#[verifier::rlimit(100)]
proof fn lemma_count_fundamental(c: Config, f: Field)
    ensures
        count_field(fields_fundamental(c), f) == if in_fundamental(f) && is_set(c, f) {
            1nat
        } else {
            0nat
        },
{
    lemma_opt_field_count(c, Field::MaxWidth, f);
    lemma_opt_field_count(c, Field::HardTabs, f);
    lemma_opt_field_count(c, Field::TabSpaces, f);
    lemma_opt_field_count(c, Field::NewlineStyle, f);
    lemma_opt_field_count(c, Field::IndentStyle, f);
    lemma_count_concat(opt_field(c, Field::MaxWidth), opt_field(c, Field::HardTabs), f);
    lemma_count_concat(opt_field(c, Field::MaxWidth) + opt_field(c, Field::HardTabs), opt_field(c, Field::TabSpaces), f);
    lemma_count_concat(opt_field(c, Field::MaxWidth) + opt_field(c, Field::HardTabs) + opt_field(c, Field::TabSpaces), opt_field(c, Field::NewlineStyle), f);
    lemma_count_concat(opt_field(c, Field::MaxWidth) + opt_field(c, Field::HardTabs) + opt_field(c, Field::TabSpaces) + opt_field(c, Field::NewlineStyle), opt_field(c, Field::IndentStyle), f);
}

#[verifier::rlimit(100)]
proof fn lemma_count_heuristics(c: Config, f: Field)
    ensures
        count_field(fields_heuristics(c), f) == if in_heuristics(f) && is_set(c, f) {
            1nat
        } else {
            0nat
        },
{
    lemma_opt_field_count(c, Field::UseSmallHeuristics, f);
    lemma_opt_field_count(c, Field::FnCallWidth, f);
    lemma_opt_field_count(c, Field::AttrFnLikeWidth, f);
    lemma_opt_field_count(c, Field::StructLitWidth, f);
    lemma_opt_field_count(c, Field::StructVariantWidth, f);
    lemma_opt_field_count(c, Field::ArrayWidth, f);
    lemma_opt_field_count(c, Field::ChainWidth, f);
    lemma_opt_field_count(c, Field::SingleLineIfElseMaxWidth, f);
    lemma_count_concat(opt_field(c, Field::UseSmallHeuristics), opt_field(c, Field::FnCallWidth), f);
    lemma_count_concat(opt_field(c, Field::UseSmallHeuristics) + opt_field(c, Field::FnCallWidth), opt_field(c, Field::AttrFnLikeWidth), f);
    lemma_count_concat(opt_field(c, Field::UseSmallHeuristics) + opt_field(c, Field::FnCallWidth) + opt_field(c, Field::AttrFnLikeWidth), opt_field(c, Field::StructLitWidth), f);
    lemma_count_concat(opt_field(c, Field::UseSmallHeuristics) + opt_field(c, Field::FnCallWidth) + opt_field(c, Field::AttrFnLikeWidth) + opt_field(c, Field::StructLitWidth), opt_field(c, Field::StructVariantWidth), f);
    lemma_count_concat(opt_field(c, Field::UseSmallHeuristics) + opt_field(c, Field::FnCallWidth) + opt_field(c, Field::AttrFnLikeWidth) + opt_field(c, Field::StructLitWidth) + opt_field(c, Field::StructVariantWidth), opt_field(c, Field::ArrayWidth), f);
    lemma_count_concat(opt_field(c, Field::UseSmallHeuristics) + opt_field(c, Field::FnCallWidth) + opt_field(c, Field::AttrFnLikeWidth) + opt_field(c, Field::StructLitWidth) + opt_field(c, Field::StructVariantWidth) + opt_field(c, Field::ArrayWidth), opt_field(c, Field::ChainWidth), f);
    lemma_count_concat(opt_field(c, Field::UseSmallHeuristics) + opt_field(c, Field::FnCallWidth) + opt_field(c, Field::AttrFnLikeWidth) + opt_field(c, Field::StructLitWidth) + opt_field(c, Field::StructVariantWidth) + opt_field(c, Field::ArrayWidth) + opt_field(c, Field::ChainWidth), opt_field(c, Field::SingleLineIfElseMaxWidth), f);
}

#[verifier::rlimit(100)]
proof fn lemma_count_comment_wrapping(c: Config, f: Field)
    ensures
        count_field(fields_comment_wrapping(c), f) == if in_comment_wrapping(f) && is_set(c, f) {
            1nat
        } else {
            0nat
        },
{
    lemma_opt_field_count(c, Field::WrapComments, f);
    lemma_opt_field_count(c, Field::FormatCodeInDocComments, f);
    lemma_opt_field_count(c, Field::DocCommentCodeBlockWidth, f);
    lemma_opt_field_count(c, Field::CommentWidth, f);
    lemma_opt_field_count(c, Field::NormalizeComments, f);
    lemma_count_concat(opt_field(c, Field::WrapComments), opt_field(c, Field::FormatCodeInDocComments), f);
    lemma_count_concat(opt_field(c, Field::WrapComments) + opt_field(c, Field::FormatCodeInDocComments), opt_field(c, Field::DocCommentCodeBlockWidth), f);
    lemma_count_concat(opt_field(c, Field::WrapComments) + opt_field(c, Field::FormatCodeInDocComments) + opt_field(c, Field::DocCommentCodeBlockWidth), opt_field(c, Field::CommentWidth), f);
    lemma_count_concat(opt_field(c, Field::WrapComments) + opt_field(c, Field::FormatCodeInDocComments) + opt_field(c, Field::DocCommentCodeBlockWidth) + opt_field(c, Field::CommentWidth), opt_field(c, Field::NormalizeComments), f);
}

#[verifier::rlimit(100)]
proof fn lemma_count_comment_normalizing(c: Config, f: Field)
    ensures
        count_field(fields_comment_normalizing(c), f) == if in_comment_normalizing(f) && is_set(c, f) {
            1nat
        } else {
            0nat
        },
{
    lemma_opt_field_count(c, Field::NormalizeDocAttributes, f);
    lemma_opt_field_count(c, Field::FormatStrings, f);
    lemma_opt_field_count(c, Field::FormatMacroMatchers, f);
    lemma_opt_field_count(c, Field::FormatMacroBodies, f);
    lemma_opt_field_count(c, Field::HexLiteralCase, f);
    lemma_count_concat(opt_field(c, Field::NormalizeDocAttributes), opt_field(c, Field::FormatStrings), f);
    lemma_count_concat(opt_field(c, Field::NormalizeDocAttributes) + opt_field(c, Field::FormatStrings), opt_field(c, Field::FormatMacroMatchers), f);
    lemma_count_concat(opt_field(c, Field::NormalizeDocAttributes) + opt_field(c, Field::FormatStrings) + opt_field(c, Field::FormatMacroMatchers), opt_field(c, Field::FormatMacroBodies), f);
    lemma_count_concat(opt_field(c, Field::NormalizeDocAttributes) + opt_field(c, Field::FormatStrings) + opt_field(c, Field::FormatMacroMatchers) + opt_field(c, Field::FormatMacroBodies), opt_field(c, Field::HexLiteralCase), f);
}

#[verifier::rlimit(100)]
proof fn lemma_count_single_line(c: Config, f: Field)
    ensures
        count_field(fields_single_line(c), f) == if in_single_line(f) && is_set(c, f) {
            1nat
        } else {
            0nat
        },
{
    lemma_opt_field_count(c, Field::EmptyItemSingleLine, f);
    lemma_opt_field_count(c, Field::StructLitSingleLine, f);
    lemma_opt_field_count(c, Field::FnSingleLine, f);
    lemma_opt_field_count(c, Field::WhereSingleLine, f);
    lemma_count_concat(opt_field(c, Field::EmptyItemSingleLine), opt_field(c, Field::StructLitSingleLine), f);
    lemma_count_concat(opt_field(c, Field::EmptyItemSingleLine) + opt_field(c, Field::StructLitSingleLine), opt_field(c, Field::FnSingleLine), f);
    lemma_count_concat(opt_field(c, Field::EmptyItemSingleLine) + opt_field(c, Field::StructLitSingleLine) + opt_field(c, Field::FnSingleLine), opt_field(c, Field::WhereSingleLine), f);
}

#[verifier::rlimit(100)]
proof fn lemma_count_imports(c: Config, f: Field)
    ensures
        count_field(fields_imports(c), f) == if in_imports(f) && is_set(c, f) {
            1nat
        } else {
            0nat
        },
{
    lemma_opt_field_count(c, Field::ImportsIndent, f);
    lemma_opt_field_count(c, Field::ImportsLayout, f);
    lemma_opt_field_count(c, Field::ImportsGranularity, f);
    lemma_opt_field_count(c, Field::GroupImports, f);
    lemma_opt_field_count(c, Field::MergeImports, f);
    lemma_count_concat(opt_field(c, Field::ImportsIndent), opt_field(c, Field::ImportsLayout), f);
    lemma_count_concat(opt_field(c, Field::ImportsIndent) + opt_field(c, Field::ImportsLayout), opt_field(c, Field::ImportsGranularity), f);
    lemma_count_concat(opt_field(c, Field::ImportsIndent) + opt_field(c, Field::ImportsLayout) + opt_field(c, Field::ImportsGranularity), opt_field(c, Field::GroupImports), f);
    lemma_count_concat(opt_field(c, Field::ImportsIndent) + opt_field(c, Field::ImportsLayout) + opt_field(c, Field::ImportsGranularity) + opt_field(c, Field::GroupImports), opt_field(c, Field::MergeImports), f);
}

#[verifier::rlimit(100)]
proof fn lemma_count_ordering(c: Config, f: Field)
    ensures
        count_field(fields_ordering(c), f) == if in_ordering(f) && is_set(c, f) {
            1nat
        } else {
            0nat
        },
{
    lemma_opt_field_count(c, Field::ReorderImports, f);
    lemma_opt_field_count(c, Field::ReorderModules, f);
    lemma_opt_field_count(c, Field::ReorderImplItems, f);
    lemma_count_concat(opt_field(c, Field::ReorderImports), opt_field(c, Field::ReorderModules), f);
    lemma_count_concat(opt_field(c, Field::ReorderImports) + opt_field(c, Field::ReorderModules), opt_field(c, Field::ReorderImplItems), f);
}

#[verifier::rlimit(100)]
proof fn lemma_count_spaces(c: Config, f: Field)
    ensures
        count_field(fields_spaces(c), f) == if in_spaces(f) && is_set(c, f) {
            1nat
        } else {
            0nat
        },
{
    lemma_opt_field_count(c, Field::TypePunctuationDensity, f);
    lemma_opt_field_count(c, Field::SpaceBeforeColon, f);
    lemma_opt_field_count(c, Field::SpaceAfterColon, f);
    lemma_opt_field_count(c, Field::SpacesAroundRanges, f);
    lemma_opt_field_count(c, Field::BinopSeparator, f);
    lemma_count_concat(opt_field(c, Field::TypePunctuationDensity), opt_field(c, Field::SpaceBeforeColon), f);
    lemma_count_concat(opt_field(c, Field::TypePunctuationDensity) + opt_field(c, Field::SpaceBeforeColon), opt_field(c, Field::SpaceAfterColon), f);
    lemma_count_concat(opt_field(c, Field::TypePunctuationDensity) + opt_field(c, Field::SpaceBeforeColon) + opt_field(c, Field::SpaceAfterColon), opt_field(c, Field::SpacesAroundRanges), f);
    lemma_count_concat(opt_field(c, Field::TypePunctuationDensity) + opt_field(c, Field::SpaceBeforeColon) + opt_field(c, Field::SpaceAfterColon) + opt_field(c, Field::SpacesAroundRanges), opt_field(c, Field::BinopSeparator), f);
}

#[verifier::rlimit(100)]
proof fn lemma_count_expressions(c: Config, f: Field)
    ensures
        count_field(fields_expressions(c), f) == if in_expressions(f) && is_set(c, f) {
            1nat
        } else {
            0nat
        },
{
    lemma_opt_field_count(c, Field::RemoveNestedParens, f);
    lemma_opt_field_count(c, Field::CombineControlExpr, f);
    lemma_opt_field_count(c, Field::ShortArrayElementWidthThreshold, f);
    lemma_opt_field_count(c, Field::OverflowDelimitedExpr, f);
    lemma_opt_field_count(c, Field::StructFieldAlignThreshold, f);
    lemma_opt_field_count(c, Field::EnumDiscrimAlignThreshold, f);
    lemma_opt_field_count(c, Field::MatchArmBlocks, f);
    lemma_count_concat(opt_field(c, Field::RemoveNestedParens), opt_field(c, Field::CombineControlExpr), f);
    lemma_count_concat(opt_field(c, Field::RemoveNestedParens) + opt_field(c, Field::CombineControlExpr), opt_field(c, Field::ShortArrayElementWidthThreshold), f);
    lemma_count_concat(opt_field(c, Field::RemoveNestedParens) + opt_field(c, Field::CombineControlExpr) + opt_field(c, Field::ShortArrayElementWidthThreshold), opt_field(c, Field::OverflowDelimitedExpr), f);
    lemma_count_concat(opt_field(c, Field::RemoveNestedParens) + opt_field(c, Field::CombineControlExpr) + opt_field(c, Field::ShortArrayElementWidthThreshold) + opt_field(c, Field::OverflowDelimitedExpr), opt_field(c, Field::StructFieldAlignThreshold), f);
    lemma_count_concat(opt_field(c, Field::RemoveNestedParens) + opt_field(c, Field::CombineControlExpr) + opt_field(c, Field::ShortArrayElementWidthThreshold) + opt_field(c, Field::OverflowDelimitedExpr) + opt_field(c, Field::StructFieldAlignThreshold), opt_field(c, Field::EnumDiscrimAlignThreshold), f);
    lemma_count_concat(opt_field(c, Field::RemoveNestedParens) + opt_field(c, Field::CombineControlExpr) + opt_field(c, Field::ShortArrayElementWidthThreshold) + opt_field(c, Field::OverflowDelimitedExpr) + opt_field(c, Field::StructFieldAlignThreshold) + opt_field(c, Field::EnumDiscrimAlignThreshold), opt_field(c, Field::MatchArmBlocks), f);
}

#[verifier::rlimit(100)]
proof fn lemma_count_items(c: Config, f: Field)
    ensures
        count_field(fields_items(c), f) == if in_items(f) && is_set(c, f) {
            1nat
        } else {
            0nat
        },
{
    lemma_opt_field_count(c, Field::MatchArmLeadingPipes, f);
    lemma_opt_field_count(c, Field::ForceMultilineBlocks, f);
    lemma_opt_field_count(c, Field::FnArgsLayout, f);
    lemma_opt_field_count(c, Field::BraceStyle, f);
    lemma_count_concat(opt_field(c, Field::MatchArmLeadingPipes), opt_field(c, Field::ForceMultilineBlocks), f);
    lemma_count_concat(opt_field(c, Field::MatchArmLeadingPipes) + opt_field(c, Field::ForceMultilineBlocks), opt_field(c, Field::FnArgsLayout), f);
    lemma_count_concat(opt_field(c, Field::MatchArmLeadingPipes) + opt_field(c, Field::ForceMultilineBlocks) + opt_field(c, Field::FnArgsLayout), opt_field(c, Field::BraceStyle), f);
}

#[verifier::rlimit(100)]
proof fn lemma_count_control_flow(c: Config, f: Field)
    ensures
        count_field(fields_control_flow(c), f) == if in_control_flow(f) && is_set(c, f) {
            1nat
        } else {
            0nat
        },
{
    lemma_opt_field_count(c, Field::ControlBraceStyle, f);
    lemma_opt_field_count(c, Field::TrailingSemicolon, f);
    lemma_opt_field_count(c, Field::TrailingComma, f);
    lemma_count_concat(opt_field(c, Field::ControlBraceStyle), opt_field(c, Field::TrailingSemicolon), f);
    lemma_count_concat(opt_field(c, Field::ControlBraceStyle) + opt_field(c, Field::TrailingSemicolon), opt_field(c, Field::TrailingComma), f);
}

#[verifier::rlimit(100)]
proof fn lemma_count_layout(c: Config, f: Field)
    ensures
        count_field(fields_layout(c), f) == if in_layout(f) && is_set(c, f) {
            1nat
        } else {
            0nat
        },
{
    lemma_opt_field_count(c, Field::MatchBlockTrailingComma, f);
    lemma_opt_field_count(c, Field::BlankLinesUpperBound, f);
    lemma_opt_field_count(c, Field::BlankLinesLowerBound, f);
    lemma_opt_field_count(c, Field::Edition, f);
    lemma_opt_field_count(c, Field::Version, f);
    lemma_opt_field_count(c, Field::InlineAttributeWidth, f);
    lemma_opt_field_count(c, Field::FormatGeneratedFiles, f);
    lemma_count_concat(opt_field(c, Field::MatchBlockTrailingComma), opt_field(c, Field::BlankLinesUpperBound), f);
    lemma_count_concat(opt_field(c, Field::MatchBlockTrailingComma) + opt_field(c, Field::BlankLinesUpperBound), opt_field(c, Field::BlankLinesLowerBound), f);
    lemma_count_concat(opt_field(c, Field::MatchBlockTrailingComma) + opt_field(c, Field::BlankLinesUpperBound) + opt_field(c, Field::BlankLinesLowerBound), opt_field(c, Field::Edition), f);
    lemma_count_concat(opt_field(c, Field::MatchBlockTrailingComma) + opt_field(c, Field::BlankLinesUpperBound) + opt_field(c, Field::BlankLinesLowerBound) + opt_field(c, Field::Edition), opt_field(c, Field::Version), f);
    lemma_count_concat(opt_field(c, Field::MatchBlockTrailingComma) + opt_field(c, Field::BlankLinesUpperBound) + opt_field(c, Field::BlankLinesLowerBound) + opt_field(c, Field::Edition) + opt_field(c, Field::Version), opt_field(c, Field::InlineAttributeWidth), f);
    lemma_count_concat(opt_field(c, Field::MatchBlockTrailingComma) + opt_field(c, Field::BlankLinesUpperBound) + opt_field(c, Field::BlankLinesLowerBound) + opt_field(c, Field::Edition) + opt_field(c, Field::Version) + opt_field(c, Field::InlineAttributeWidth), opt_field(c, Field::FormatGeneratedFiles), f);
}

#[verifier::rlimit(100)]
proof fn lemma_count_linty(c: Config, f: Field)
    ensures
        count_field(fields_linty(c), f) == if in_linty(f) && is_set(c, f) {
            1nat
        } else {
            0nat
        },
{
    lemma_opt_field_count(c, Field::MergeDerives, f);
    lemma_opt_field_count(c, Field::UseTryShorthand, f);
    lemma_opt_field_count(c, Field::UseFieldInitShorthand, f);
    lemma_opt_field_count(c, Field::ForceExplicitAbi, f);
    lemma_opt_field_count(c, Field::CondenseWildcardSuffixes, f);
    lemma_count_concat(opt_field(c, Field::MergeDerives), opt_field(c, Field::UseTryShorthand), f);
    lemma_count_concat(opt_field(c, Field::MergeDerives) + opt_field(c, Field::UseTryShorthand), opt_field(c, Field::UseFieldInitShorthand), f);
    lemma_count_concat(opt_field(c, Field::MergeDerives) + opt_field(c, Field::UseTryShorthand) + opt_field(c, Field::UseFieldInitShorthand), opt_field(c, Field::ForceExplicitAbi), f);
    lemma_count_concat(opt_field(c, Field::MergeDerives) + opt_field(c, Field::UseTryShorthand) + opt_field(c, Field::UseFieldInitShorthand) + opt_field(c, Field::ForceExplicitAbi), opt_field(c, Field::CondenseWildcardSuffixes), f);
}

#[verifier::rlimit(100)]
proof fn lemma_field_count(c: Config, f: Field)
    ensures
        count_field(set_fields(c), f) == if is_set(c, f) {
            1nat
        } else {
            0nat
        },
{
    lemma_count_fundamental(c, f);
    lemma_count_heuristics(c, f);
    lemma_count_comment_wrapping(c, f);
    lemma_count_comment_normalizing(c, f);
    lemma_count_single_line(c, f);
    lemma_count_imports(c, f);
    lemma_count_ordering(c, f);
    lemma_count_spaces(c, f);
    lemma_count_expressions(c, f);
    lemma_count_items(c, f);
    lemma_count_control_flow(c, f);
    lemma_count_layout(c, f);
    lemma_count_linty(c, f);
    lemma_count_concat(fields_fundamental(c), fields_heuristics(c), f);
    lemma_count_concat(fields_fundamental(c) + fields_heuristics(c), fields_comment_wrapping(c), f);
    lemma_count_concat(fields_fundamental(c) + fields_heuristics(c) + fields_comment_wrapping(c), fields_comment_normalizing(c), f);
    lemma_count_concat(fields_fundamental(c) + fields_heuristics(c) + fields_comment_wrapping(c) + fields_comment_normalizing(c), fields_single_line(c), f);
    lemma_count_concat(fields_fundamental(c) + fields_heuristics(c) + fields_comment_wrapping(c) + fields_comment_normalizing(c) + fields_single_line(c), fields_imports(c), f);
    lemma_count_concat(fields_fundamental(c) + fields_heuristics(c) + fields_comment_wrapping(c) + fields_comment_normalizing(c) + fields_single_line(c) + fields_imports(c), fields_ordering(c), f);
    lemma_count_concat(fields_fundamental(c) + fields_heuristics(c) + fields_comment_wrapping(c) + fields_comment_normalizing(c) + fields_single_line(c) + fields_imports(c) + fields_ordering(c), fields_spaces(c), f);
    lemma_count_concat(fields_fundamental(c) + fields_heuristics(c) + fields_comment_wrapping(c) + fields_comment_normalizing(c) + fields_single_line(c) + fields_imports(c) + fields_ordering(c) + fields_spaces(c), fields_expressions(c), f);
    lemma_count_concat(fields_fundamental(c) + fields_heuristics(c) + fields_comment_wrapping(c) + fields_comment_normalizing(c) + fields_single_line(c) + fields_imports(c) + fields_ordering(c) + fields_spaces(c) + fields_expressions(c), fields_items(c), f);
    lemma_count_concat(fields_fundamental(c) + fields_heuristics(c) + fields_comment_wrapping(c) + fields_comment_normalizing(c) + fields_single_line(c) + fields_imports(c) + fields_ordering(c) + fields_spaces(c) + fields_expressions(c) + fields_items(c), fields_control_flow(c), f);
    lemma_count_concat(fields_fundamental(c) + fields_heuristics(c) + fields_comment_wrapping(c) + fields_comment_normalizing(c) + fields_single_line(c) + fields_imports(c) + fields_ordering(c) + fields_spaces(c) + fields_expressions(c) + fields_items(c) + fields_control_flow(c), fields_layout(c), f);
    lemma_count_concat(fields_fundamental(c) + fields_heuristics(c) + fields_comment_wrapping(c) + fields_comment_normalizing(c) + fields_single_line(c) + fields_imports(c) + fields_ordering(c) + fields_spaces(c) + fields_expressions(c) + fields_items(c) + fields_control_flow(c) + fields_layout(c), fields_linty(c), f);
    assert(in_fundamental(f) || in_heuristics(f) || in_comment_wrapping(f) || in_comment_normalizing(f) || in_single_line(f) || in_imports(f) || in_ordering(f) || in_spaces(f) || in_expressions(f) || in_items(f) || in_control_flow(f) || in_layout(f) || in_linty(f));
}

proof fn lemma_count_contains(fs: Seq<Field>, f: Field)
    ensures
        (count_field(fs, f) >= 1) <==> fs.contains(f),
    decreases fs.len(),
{
    if fs.len() == 0 {
    } else {
        lemma_count_contains(fs.drop_last(), f);
        if fs.last() == f {
            assert(fs[fs.len() - 1] == f);
        } else {
            if fs.contains(f) {
                let i = choose|i: int| 0 <= i < fs.len() && fs[i] == f;
                assert(fs.drop_last()[i] == f);
                assert(fs.drop_last().contains(f));
            }
            if fs.drop_last().contains(f) {
                let i = choose|i: int|
                    0 <= i < fs.drop_last().len() && fs.drop_last()[i] == f;
                assert(fs[i] == f);
                assert(fs.contains(f));
            }
        }
    }
}

/// Omission: a field left unset never appears among the serialized entries.
pub proof fn lemma_unset_field_omitted(c: Config, f: Field)
    requires
        !is_set(c, f),
    ensures
        count_field(set_fields(c), f) == 0,
        !set_fields(c).contains(f),
{
    lemma_field_count(c, f);
    lemma_count_contains(set_fields(c), f);
}

/// A field explicitly set appears exactly once among the serialized
/// entries; its line renders the value for the field's type (see
/// [`entry_line`] and [`lemma_serial_renders_set_fields`]).
pub proof fn lemma_set_field_appears_once(c: Config, f: Field)
    requires
        is_set(c, f),
    ensures
        count_field(set_fields(c), f) == 1,
        set_fields(c).contains(f),
{
    lemma_field_count(c, f);
    lemma_count_contains(set_fields(c), f);
}

/// The text obtained by rendering the lines of the given fields in order.
pub open spec fn render_fields(c: Config, fs: Seq<Field>) -> Seq<char>
    decreases fs.len(),
{
    if fs.len() == 0 {
        Seq::empty()
    } else {
        render_fields(c, fs.drop_last()) + entry_line(c, fs.last())
    }
}

proof fn lemma_render_concat(c: Config, a: Seq<Field>, b: Seq<Field>)
    ensures
        render_fields(c, a + b) == render_fields(c, a) + render_fields(c, b),
    decreases b.len(),
{
    if b.len() == 0 {
        assert(a + b =~= a);
        assert(render_fields(c, a) + Seq::<char>::empty() =~= render_fields(c, a));
    } else {
        lemma_render_concat(c, a, b.drop_last());
        assert((a + b).drop_last() =~= a + b.drop_last());
        assert((a + b).last() == b.last());
        assert((render_fields(c, a) + render_fields(c, b.drop_last()))
            + entry_line(c, b.last()) =~= render_fields(c, a) + (render_fields(
            c,
            b.drop_last(),
        ) + entry_line(c, b.last())));
    }
}

proof fn lemma_render_opt(c: Config, g: Field)
    ensures
        render_fields(c, opt_field(c, g)) == opt_entry(c, g),
{
    if is_set(c, g) {
        assert(seq![g].drop_last().len() == 0);
        assert(render_fields(c, seq![g].drop_last()) == Seq::<char>::empty());
        assert(seq![g].last() == g);
        assert(Seq::<char>::empty() + entry_line(c, g) =~= entry_line(c, g));
    }
}

#[verifier::rlimit(100)]
proof fn lemma_render_fundamental(c: Config)
    ensures
        render_fields(c, fields_fundamental(c)) == serial_fundamental(c),
{
    lemma_render_opt(c, Field::MaxWidth);
    lemma_render_opt(c, Field::HardTabs);
    lemma_render_opt(c, Field::TabSpaces);
    lemma_render_opt(c, Field::NewlineStyle);
    lemma_render_opt(c, Field::IndentStyle);
    lemma_render_concat(c, opt_field(c, Field::MaxWidth), opt_field(c, Field::HardTabs));
    lemma_render_concat(c, opt_field(c, Field::MaxWidth) + opt_field(c, Field::HardTabs), opt_field(c, Field::TabSpaces));
    lemma_render_concat(c, opt_field(c, Field::MaxWidth) + opt_field(c, Field::HardTabs) + opt_field(c, Field::TabSpaces), opt_field(c, Field::NewlineStyle));
    lemma_render_concat(c, opt_field(c, Field::MaxWidth) + opt_field(c, Field::HardTabs) + opt_field(c, Field::TabSpaces) + opt_field(c, Field::NewlineStyle), opt_field(c, Field::IndentStyle));
}

#[verifier::rlimit(100)]
proof fn lemma_render_heuristics(c: Config)
    ensures
        render_fields(c, fields_heuristics(c)) == serial_heuristics(c),
{
    lemma_render_opt(c, Field::UseSmallHeuristics);
    lemma_render_opt(c, Field::FnCallWidth);
    lemma_render_opt(c, Field::AttrFnLikeWidth);
    lemma_render_opt(c, Field::StructLitWidth);
    lemma_render_opt(c, Field::StructVariantWidth);
    lemma_render_opt(c, Field::ArrayWidth);
    lemma_render_opt(c, Field::ChainWidth);
    lemma_render_opt(c, Field::SingleLineIfElseMaxWidth);
    lemma_render_concat(c, opt_field(c, Field::UseSmallHeuristics), opt_field(c, Field::FnCallWidth));
    lemma_render_concat(c, opt_field(c, Field::UseSmallHeuristics) + opt_field(c, Field::FnCallWidth), opt_field(c, Field::AttrFnLikeWidth));
    lemma_render_concat(c, opt_field(c, Field::UseSmallHeuristics) + opt_field(c, Field::FnCallWidth) + opt_field(c, Field::AttrFnLikeWidth), opt_field(c, Field::StructLitWidth));
    lemma_render_concat(c, opt_field(c, Field::UseSmallHeuristics) + opt_field(c, Field::FnCallWidth) + opt_field(c, Field::AttrFnLikeWidth) + opt_field(c, Field::StructLitWidth), opt_field(c, Field::StructVariantWidth));
    lemma_render_concat(c, opt_field(c, Field::UseSmallHeuristics) + opt_field(c, Field::FnCallWidth) + opt_field(c, Field::AttrFnLikeWidth) + opt_field(c, Field::StructLitWidth) + opt_field(c, Field::StructVariantWidth), opt_field(c, Field::ArrayWidth));
    lemma_render_concat(c, opt_field(c, Field::UseSmallHeuristics) + opt_field(c, Field::FnCallWidth) + opt_field(c, Field::AttrFnLikeWidth) + opt_field(c, Field::StructLitWidth) + opt_field(c, Field::StructVariantWidth) + opt_field(c, Field::ArrayWidth), opt_field(c, Field::ChainWidth));
    lemma_render_concat(c, opt_field(c, Field::UseSmallHeuristics) + opt_field(c, Field::FnCallWidth) + opt_field(c, Field::AttrFnLikeWidth) + opt_field(c, Field::StructLitWidth) + opt_field(c, Field::StructVariantWidth) + opt_field(c, Field::ArrayWidth) + opt_field(c, Field::ChainWidth), opt_field(c, Field::SingleLineIfElseMaxWidth));
}

#[verifier::rlimit(100)]
proof fn lemma_render_comment_wrapping(c: Config)
    ensures
        render_fields(c, fields_comment_wrapping(c)) == serial_comment_wrapping(c),
{
    lemma_render_opt(c, Field::WrapComments);
    lemma_render_opt(c, Field::FormatCodeInDocComments);
    lemma_render_opt(c, Field::DocCommentCodeBlockWidth);
    lemma_render_opt(c, Field::CommentWidth);
    lemma_render_opt(c, Field::NormalizeComments);
    lemma_render_concat(c, opt_field(c, Field::WrapComments), opt_field(c, Field::FormatCodeInDocComments));
    lemma_render_concat(c, opt_field(c, Field::WrapComments) + opt_field(c, Field::FormatCodeInDocComments), opt_field(c, Field::DocCommentCodeBlockWidth));
    lemma_render_concat(c, opt_field(c, Field::WrapComments) + opt_field(c, Field::FormatCodeInDocComments) + opt_field(c, Field::DocCommentCodeBlockWidth), opt_field(c, Field::CommentWidth));
    lemma_render_concat(c, opt_field(c, Field::WrapComments) + opt_field(c, Field::FormatCodeInDocComments) + opt_field(c, Field::DocCommentCodeBlockWidth) + opt_field(c, Field::CommentWidth), opt_field(c, Field::NormalizeComments));
}

#[verifier::rlimit(100)]
proof fn lemma_render_comment_normalizing(c: Config)
    ensures
        render_fields(c, fields_comment_normalizing(c)) == serial_comment_normalizing(c),
{
    lemma_render_opt(c, Field::NormalizeDocAttributes);
    lemma_render_opt(c, Field::FormatStrings);
    lemma_render_opt(c, Field::FormatMacroMatchers);
    lemma_render_opt(c, Field::FormatMacroBodies);
    lemma_render_opt(c, Field::HexLiteralCase);
    lemma_render_concat(c, opt_field(c, Field::NormalizeDocAttributes), opt_field(c, Field::FormatStrings));
    lemma_render_concat(c, opt_field(c, Field::NormalizeDocAttributes) + opt_field(c, Field::FormatStrings), opt_field(c, Field::FormatMacroMatchers));
    lemma_render_concat(c, opt_field(c, Field::NormalizeDocAttributes) + opt_field(c, Field::FormatStrings) + opt_field(c, Field::FormatMacroMatchers), opt_field(c, Field::FormatMacroBodies));
    lemma_render_concat(c, opt_field(c, Field::NormalizeDocAttributes) + opt_field(c, Field::FormatStrings) + opt_field(c, Field::FormatMacroMatchers) + opt_field(c, Field::FormatMacroBodies), opt_field(c, Field::HexLiteralCase));
}

#[verifier::rlimit(100)]
proof fn lemma_render_single_line(c: Config)
    ensures
        render_fields(c, fields_single_line(c)) == serial_single_line(c),
{
    lemma_render_opt(c, Field::EmptyItemSingleLine);
    lemma_render_opt(c, Field::StructLitSingleLine);
    lemma_render_opt(c, Field::FnSingleLine);
    lemma_render_opt(c, Field::WhereSingleLine);
    lemma_render_concat(c, opt_field(c, Field::EmptyItemSingleLine), opt_field(c, Field::StructLitSingleLine));
    lemma_render_concat(c, opt_field(c, Field::EmptyItemSingleLine) + opt_field(c, Field::StructLitSingleLine), opt_field(c, Field::FnSingleLine));
    lemma_render_concat(c, opt_field(c, Field::EmptyItemSingleLine) + opt_field(c, Field::StructLitSingleLine) + opt_field(c, Field::FnSingleLine), opt_field(c, Field::WhereSingleLine));
}

#[verifier::rlimit(100)]
proof fn lemma_render_imports(c: Config)
    ensures
        render_fields(c, fields_imports(c)) == serial_imports(c),
{
    lemma_render_opt(c, Field::ImportsIndent);
    lemma_render_opt(c, Field::ImportsLayout);
    lemma_render_opt(c, Field::ImportsGranularity);
    lemma_render_opt(c, Field::GroupImports);
    lemma_render_opt(c, Field::MergeImports);
    lemma_render_concat(c, opt_field(c, Field::ImportsIndent), opt_field(c, Field::ImportsLayout));
    lemma_render_concat(c, opt_field(c, Field::ImportsIndent) + opt_field(c, Field::ImportsLayout), opt_field(c, Field::ImportsGranularity));
    lemma_render_concat(c, opt_field(c, Field::ImportsIndent) + opt_field(c, Field::ImportsLayout) + opt_field(c, Field::ImportsGranularity), opt_field(c, Field::GroupImports));
    lemma_render_concat(c, opt_field(c, Field::ImportsIndent) + opt_field(c, Field::ImportsLayout) + opt_field(c, Field::ImportsGranularity) + opt_field(c, Field::GroupImports), opt_field(c, Field::MergeImports));
}

#[verifier::rlimit(100)]
proof fn lemma_render_ordering(c: Config)
    ensures
        render_fields(c, fields_ordering(c)) == serial_ordering(c),
{
    lemma_render_opt(c, Field::ReorderImports);
    lemma_render_opt(c, Field::ReorderModules);
    lemma_render_opt(c, Field::ReorderImplItems);
    lemma_render_concat(c, opt_field(c, Field::ReorderImports), opt_field(c, Field::ReorderModules));
    lemma_render_concat(c, opt_field(c, Field::ReorderImports) + opt_field(c, Field::ReorderModules), opt_field(c, Field::ReorderImplItems));
}

#[verifier::rlimit(100)]
proof fn lemma_render_spaces(c: Config)
    ensures
        render_fields(c, fields_spaces(c)) == serial_spaces(c),
{
    lemma_render_opt(c, Field::TypePunctuationDensity);
    lemma_render_opt(c, Field::SpaceBeforeColon);
    lemma_render_opt(c, Field::SpaceAfterColon);
    lemma_render_opt(c, Field::SpacesAroundRanges);
    lemma_render_opt(c, Field::BinopSeparator);
    lemma_render_concat(c, opt_field(c, Field::TypePunctuationDensity), opt_field(c, Field::SpaceBeforeColon));
    lemma_render_concat(c, opt_field(c, Field::TypePunctuationDensity) + opt_field(c, Field::SpaceBeforeColon), opt_field(c, Field::SpaceAfterColon));
    lemma_render_concat(c, opt_field(c, Field::TypePunctuationDensity) + opt_field(c, Field::SpaceBeforeColon) + opt_field(c, Field::SpaceAfterColon), opt_field(c, Field::SpacesAroundRanges));
    lemma_render_concat(c, opt_field(c, Field::TypePunctuationDensity) + opt_field(c, Field::SpaceBeforeColon) + opt_field(c, Field::SpaceAfterColon) + opt_field(c, Field::SpacesAroundRanges), opt_field(c, Field::BinopSeparator));
}

#[verifier::rlimit(100)]
proof fn lemma_render_expressions(c: Config)
    ensures
        render_fields(c, fields_expressions(c)) == serial_expressions(c),
{
    lemma_render_opt(c, Field::RemoveNestedParens);
    lemma_render_opt(c, Field::CombineControlExpr);
    lemma_render_opt(c, Field::ShortArrayElementWidthThreshold);
    lemma_render_opt(c, Field::OverflowDelimitedExpr);
    lemma_render_opt(c, Field::StructFieldAlignThreshold);
    lemma_render_opt(c, Field::EnumDiscrimAlignThreshold);
    lemma_render_opt(c, Field::MatchArmBlocks);
    lemma_render_concat(c, opt_field(c, Field::RemoveNestedParens), opt_field(c, Field::CombineControlExpr));
    lemma_render_concat(c, opt_field(c, Field::RemoveNestedParens) + opt_field(c, Field::CombineControlExpr), opt_field(c, Field::ShortArrayElementWidthThreshold));
    lemma_render_concat(c, opt_field(c, Field::RemoveNestedParens) + opt_field(c, Field::CombineControlExpr) + opt_field(c, Field::ShortArrayElementWidthThreshold), opt_field(c, Field::OverflowDelimitedExpr));
    lemma_render_concat(c, opt_field(c, Field::RemoveNestedParens) + opt_field(c, Field::CombineControlExpr) + opt_field(c, Field::ShortArrayElementWidthThreshold) + opt_field(c, Field::OverflowDelimitedExpr), opt_field(c, Field::StructFieldAlignThreshold));
    lemma_render_concat(c, opt_field(c, Field::RemoveNestedParens) + opt_field(c, Field::CombineControlExpr) + opt_field(c, Field::ShortArrayElementWidthThreshold) + opt_field(c, Field::OverflowDelimitedExpr) + opt_field(c, Field::StructFieldAlignThreshold), opt_field(c, Field::EnumDiscrimAlignThreshold));
    lemma_render_concat(c, opt_field(c, Field::RemoveNestedParens) + opt_field(c, Field::CombineControlExpr) + opt_field(c, Field::ShortArrayElementWidthThreshold) + opt_field(c, Field::OverflowDelimitedExpr) + opt_field(c, Field::StructFieldAlignThreshold) + opt_field(c, Field::EnumDiscrimAlignThreshold), opt_field(c, Field::MatchArmBlocks));
}

#[verifier::rlimit(100)]
proof fn lemma_render_items(c: Config)
    ensures
        render_fields(c, fields_items(c)) == serial_items(c),
{
    lemma_render_opt(c, Field::MatchArmLeadingPipes);
    lemma_render_opt(c, Field::ForceMultilineBlocks);
    lemma_render_opt(c, Field::FnArgsLayout);
    lemma_render_opt(c, Field::BraceStyle);
    lemma_render_concat(c, opt_field(c, Field::MatchArmLeadingPipes), opt_field(c, Field::ForceMultilineBlocks));
    lemma_render_concat(c, opt_field(c, Field::MatchArmLeadingPipes) + opt_field(c, Field::ForceMultilineBlocks), opt_field(c, Field::FnArgsLayout));
    lemma_render_concat(c, opt_field(c, Field::MatchArmLeadingPipes) + opt_field(c, Field::ForceMultilineBlocks) + opt_field(c, Field::FnArgsLayout), opt_field(c, Field::BraceStyle));
}

#[verifier::rlimit(100)]
proof fn lemma_render_control_flow(c: Config)
    ensures
        render_fields(c, fields_control_flow(c)) == serial_control_flow(c),
{
    lemma_render_opt(c, Field::ControlBraceStyle);
    lemma_render_opt(c, Field::TrailingSemicolon);
    lemma_render_opt(c, Field::TrailingComma);
    lemma_render_concat(c, opt_field(c, Field::ControlBraceStyle), opt_field(c, Field::TrailingSemicolon));
    lemma_render_concat(c, opt_field(c, Field::ControlBraceStyle) + opt_field(c, Field::TrailingSemicolon), opt_field(c, Field::TrailingComma));
}

#[verifier::rlimit(100)]
proof fn lemma_render_layout(c: Config)
    ensures
        render_fields(c, fields_layout(c)) == serial_layout(c),
{
    lemma_render_opt(c, Field::MatchBlockTrailingComma);
    lemma_render_opt(c, Field::BlankLinesUpperBound);
    lemma_render_opt(c, Field::BlankLinesLowerBound);
    lemma_render_opt(c, Field::Edition);
    lemma_render_opt(c, Field::Version);
    lemma_render_opt(c, Field::InlineAttributeWidth);
    lemma_render_opt(c, Field::FormatGeneratedFiles);
    lemma_render_concat(c, opt_field(c, Field::MatchBlockTrailingComma), opt_field(c, Field::BlankLinesUpperBound));
    lemma_render_concat(c, opt_field(c, Field::MatchBlockTrailingComma) + opt_field(c, Field::BlankLinesUpperBound), opt_field(c, Field::BlankLinesLowerBound));
    lemma_render_concat(c, opt_field(c, Field::MatchBlockTrailingComma) + opt_field(c, Field::BlankLinesUpperBound) + opt_field(c, Field::BlankLinesLowerBound), opt_field(c, Field::Edition));
    lemma_render_concat(c, opt_field(c, Field::MatchBlockTrailingComma) + opt_field(c, Field::BlankLinesUpperBound) + opt_field(c, Field::BlankLinesLowerBound) + opt_field(c, Field::Edition), opt_field(c, Field::Version));
    lemma_render_concat(c, opt_field(c, Field::MatchBlockTrailingComma) + opt_field(c, Field::BlankLinesUpperBound) + opt_field(c, Field::BlankLinesLowerBound) + opt_field(c, Field::Edition) + opt_field(c, Field::Version), opt_field(c, Field::InlineAttributeWidth));
    lemma_render_concat(c, opt_field(c, Field::MatchBlockTrailingComma) + opt_field(c, Field::BlankLinesUpperBound) + opt_field(c, Field::BlankLinesLowerBound) + opt_field(c, Field::Edition) + opt_field(c, Field::Version) + opt_field(c, Field::InlineAttributeWidth), opt_field(c, Field::FormatGeneratedFiles));
}

#[verifier::rlimit(100)]
proof fn lemma_render_linty(c: Config)
    ensures
        render_fields(c, fields_linty(c)) == serial_linty(c),
{
    lemma_render_opt(c, Field::MergeDerives);
    lemma_render_opt(c, Field::UseTryShorthand);
    lemma_render_opt(c, Field::UseFieldInitShorthand);
    lemma_render_opt(c, Field::ForceExplicitAbi);
    lemma_render_opt(c, Field::CondenseWildcardSuffixes);
    lemma_render_concat(c, opt_field(c, Field::MergeDerives), opt_field(c, Field::UseTryShorthand));
    lemma_render_concat(c, opt_field(c, Field::MergeDerives) + opt_field(c, Field::UseTryShorthand), opt_field(c, Field::UseFieldInitShorthand));
    lemma_render_concat(c, opt_field(c, Field::MergeDerives) + opt_field(c, Field::UseTryShorthand) + opt_field(c, Field::UseFieldInitShorthand), opt_field(c, Field::ForceExplicitAbi));
    lemma_render_concat(c, opt_field(c, Field::MergeDerives) + opt_field(c, Field::UseTryShorthand) + opt_field(c, Field::UseFieldInitShorthand) + opt_field(c, Field::ForceExplicitAbi), opt_field(c, Field::CondenseWildcardSuffixes));
}

/// The serialized text is exactly the rendering of the set fields' lines,
/// in order: nothing besides those lines appears in it.
#[verifier::rlimit(100)]
pub proof fn lemma_serial_renders_set_fields(c: Config)
    ensures
        serial(c) == render_fields(c, set_fields(c)),
{
    lemma_render_fundamental(c);
    lemma_render_heuristics(c);
    lemma_render_comment_wrapping(c);
    lemma_render_comment_normalizing(c);
    lemma_render_single_line(c);
    lemma_render_imports(c);
    lemma_render_ordering(c);
    lemma_render_spaces(c);
    lemma_render_expressions(c);
    lemma_render_items(c);
    lemma_render_control_flow(c);
    lemma_render_layout(c);
    lemma_render_linty(c);
    lemma_render_concat(c, fields_fundamental(c), fields_heuristics(c));
    lemma_render_concat(c, fields_fundamental(c) + fields_heuristics(c), fields_comment_wrapping(c));
    lemma_render_concat(c, fields_fundamental(c) + fields_heuristics(c) + fields_comment_wrapping(c), fields_comment_normalizing(c));
    lemma_render_concat(c, fields_fundamental(c) + fields_heuristics(c) + fields_comment_wrapping(c) + fields_comment_normalizing(c), fields_single_line(c));
    lemma_render_concat(c, fields_fundamental(c) + fields_heuristics(c) + fields_comment_wrapping(c) + fields_comment_normalizing(c) + fields_single_line(c), fields_imports(c));
    lemma_render_concat(c, fields_fundamental(c) + fields_heuristics(c) + fields_comment_wrapping(c) + fields_comment_normalizing(c) + fields_single_line(c) + fields_imports(c), fields_ordering(c));
    lemma_render_concat(c, fields_fundamental(c) + fields_heuristics(c) + fields_comment_wrapping(c) + fields_comment_normalizing(c) + fields_single_line(c) + fields_imports(c) + fields_ordering(c), fields_spaces(c));
    lemma_render_concat(c, fields_fundamental(c) + fields_heuristics(c) + fields_comment_wrapping(c) + fields_comment_normalizing(c) + fields_single_line(c) + fields_imports(c) + fields_ordering(c) + fields_spaces(c), fields_expressions(c));
    lemma_render_concat(c, fields_fundamental(c) + fields_heuristics(c) + fields_comment_wrapping(c) + fields_comment_normalizing(c) + fields_single_line(c) + fields_imports(c) + fields_ordering(c) + fields_spaces(c) + fields_expressions(c), fields_items(c));
    lemma_render_concat(c, fields_fundamental(c) + fields_heuristics(c) + fields_comment_wrapping(c) + fields_comment_normalizing(c) + fields_single_line(c) + fields_imports(c) + fields_ordering(c) + fields_spaces(c) + fields_expressions(c) + fields_items(c), fields_control_flow(c));
    lemma_render_concat(c, fields_fundamental(c) + fields_heuristics(c) + fields_comment_wrapping(c) + fields_comment_normalizing(c) + fields_single_line(c) + fields_imports(c) + fields_ordering(c) + fields_spaces(c) + fields_expressions(c) + fields_items(c) + fields_control_flow(c), fields_layout(c));
    lemma_render_concat(c, fields_fundamental(c) + fields_heuristics(c) + fields_comment_wrapping(c) + fields_comment_normalizing(c) + fields_single_line(c) + fields_imports(c) + fields_ordering(c) + fields_spaces(c) + fields_expressions(c) + fields_items(c) + fields_control_flow(c) + fields_layout(c), fields_linty(c));
}

proof fn lemma_add_assoc<A>(a: Seq<A>, b: Seq<A>, c: Seq<A>)
    ensures
        (a + b) + c == a + (b + c),
{
    assert((a + b) + c =~= a + (b + c));
}

proof fn lemma_add_empty<A>(a: Seq<A>)
    ensures
        a + Seq::<A>::empty() == a,
{
    assert(a + Seq::<A>::empty() =~= a);
}

proof fn lemma_empty_add<A>(a: Seq<A>)
    ensures
        Seq::<A>::empty() + a == a,
{
    assert(Seq::<A>::empty() + a =~= a);
}

proof fn lemma_len0_add<A>(a: Seq<A>, b: Seq<A>)
    requires
        a.len() == 0,
    ensures
        a + b == b,
{
    assert(a + b =~= b);
}

proof fn lemma_snoc<A>(a: Seq<A>, x: A)
    ensures
        (a + seq![x]).last() == x,
        (a + seq![x]).drop_last() == a,
        (a + seq![x]).len() == a.len() + 1,
{
    assert((a + seq![x]).drop_last() =~= a);
}

proof fn lemma_entry_shape(p: Seq<char>, k: Seq<char>, s: Seq<char>, v: Seq<char>, n: Seq<char>)
    ensures
        (((p + k) + s) + v) + n == p + (((k + s) + v) + n),
{
    assert((((p + k) + s) + v) + n =~= p + (((k + s) + v) + n));
}

proof fn lemma_quoted_shape(
    p: Seq<char>,
    k: Seq<char>,
    s: Seq<char>,
    q1: Seq<char>,
    t: Seq<char>,
    q2: Seq<char>,
    n: Seq<char>,
)
    ensures
        (((((p + k) + s) + q1) + t) + q2) + n == p + (((k + s) + ((q1 + t) + q2)) + n),
{
    assert((((((p + k) + s) + q1) + t) + q2) + n =~= p + (((k + s) + ((q1 + t) + q2))
        + n));
}

fn push_entry(out: &mut String, key: &str, value: &str)
    ensures
        final(out)@ == old(out)@ + key@ + " = "@ + value@ + "\n"@,
{
    out.append(key);
    out.append(" = ");
    out.append(value);
    out.append("\n");
}

fn push_quoted_entry(out: &mut String, key: &str, tag: &str)
    ensures
        final(out)@ == old(out)@ + key@ + " = "@ + "\""@ + tag@ + "\""@ + "\n"@,
{
    out.append(key);
    out.append(" = ");
    out.append("\"");
    out.append(tag);
    out.append("\"");
    out.append("\n");
}

#[verifier::rlimit(100)]
fn write_fundamental(out: &mut String, c: &Config)
    ensures
        final(out)@ == old(out)@ + serial_fundamental(*c),
{
    let ghost base = out@;
    let ghost mut acc: Seq<char> = Seq::empty();
    let ghost before = out@;
    if let Some(v) = c.max_width {
        let vs = usize_to_string(v);
        push_entry(out, "max_width", vs.as_str());
        proof {
            lemma_entry_shape(before, "max_width"@, " = "@, vs@, "\n"@);
        }
    }
    proof {
        let e = opt_entry(*c, Field::MaxWidth);
        if is_set(*c, Field::MaxWidth) {
            assert(out@ == before + e);
        } else {
            lemma_add_empty(acc);
        }
        lemma_add_assoc(base, acc, e);
        acc = acc + e;
        assert(out@ == base + acc);
    }
    let ghost before = out@;
    if let Some(v) = c.hard_tabs {
        let vs = bool_str(v);
        push_entry(out, "hard_tabs", vs);
        proof {
            lemma_entry_shape(before, "hard_tabs"@, " = "@, vs@, "\n"@);
        }
    }
    proof {
        let e = opt_entry(*c, Field::HardTabs);
        if is_set(*c, Field::HardTabs) {
            assert(out@ == before + e);
        } else {
            lemma_add_empty(acc);
        }
        lemma_add_assoc(base, acc, e);
        acc = acc + e;
        assert(out@ == base + acc);
    }
    let ghost before = out@;
    if let Some(v) = c.tab_spaces {
        let vs = usize_to_string(v);
        push_entry(out, "tab_spaces", vs.as_str());
        proof {
            lemma_entry_shape(before, "tab_spaces"@, " = "@, vs@, "\n"@);
        }
    }
    proof {
        let e = opt_entry(*c, Field::TabSpaces);
        if is_set(*c, Field::TabSpaces) {
            assert(out@ == before + e);
        } else {
            lemma_add_empty(acc);
        }
        lemma_add_assoc(base, acc, e);
        acc = acc + e;
        assert(out@ == base + acc);
    }
    let ghost before = out@;
    if let Some(v) = c.newline_style {
        let vs = newline_style_str(v);
        push_quoted_entry(out, "newline_style", vs);
        proof {
            lemma_quoted_shape(before, "newline_style"@, " = "@, "\""@, vs@, "\""@, "\n"@);
        }
    }
    proof {
        let e = opt_entry(*c, Field::NewlineStyle);
        if is_set(*c, Field::NewlineStyle) {
            assert(out@ == before + e);
        } else {
            lemma_add_empty(acc);
        }
        lemma_add_assoc(base, acc, e);
        acc = acc + e;
        assert(out@ == base + acc);
    }
    let ghost before = out@;
    if let Some(v) = c.indent_style {
        let vs = indent_style_str(v);
        push_quoted_entry(out, "indent_style", vs);
        proof {
            lemma_quoted_shape(before, "indent_style"@, " = "@, "\""@, vs@, "\""@, "\n"@);
        }
    }
    proof {
        let e = opt_entry(*c, Field::IndentStyle);
        if is_set(*c, Field::IndentStyle) {
            assert(out@ == before + e);
        } else {
            lemma_add_empty(acc);
        }
        lemma_add_assoc(base, acc, e);
        acc = acc + e;
        assert(out@ == base + acc);
    }
    proof {
        lemma_empty_add(opt_entry(*c, Field::MaxWidth));
        assert(acc == serial_fundamental(*c));
    }
}

#[verifier::rlimit(100)]
fn write_heuristics(out: &mut String, c: &Config)
    ensures
        final(out)@ == old(out)@ + serial_heuristics(*c),
{
    let ghost base = out@;
    let ghost mut acc: Seq<char> = Seq::empty();
    let ghost before = out@;
    if let Some(v) = c.use_small_heuristics {
        let vs = heuristics_str(v);
        push_quoted_entry(out, "use_small_heuristics", vs);
        proof {
            lemma_quoted_shape(before, "use_small_heuristics"@, " = "@, "\""@, vs@, "\""@, "\n"@);
        }
    }
    proof {
        let e = opt_entry(*c, Field::UseSmallHeuristics);
        if is_set(*c, Field::UseSmallHeuristics) {
            assert(out@ == before + e);
        } else {
            lemma_add_empty(acc);
        }
        lemma_add_assoc(base, acc, e);
        acc = acc + e;
        assert(out@ == base + acc);
    }
    let ghost before = out@;
    if let Some(v) = c.fn_call_width {
        let vs = usize_to_string(v);
        push_entry(out, "fn_call_width", vs.as_str());
        proof {
            lemma_entry_shape(before, "fn_call_width"@, " = "@, vs@, "\n"@);
        }
    }
    proof {
        let e = opt_entry(*c, Field::FnCallWidth);
        if is_set(*c, Field::FnCallWidth) {
            assert(out@ == before + e);
        } else {
            lemma_add_empty(acc);
        }
        lemma_add_assoc(base, acc, e);
        acc = acc + e;
        assert(out@ == base + acc);
    }
    let ghost before = out@;
    if let Some(v) = c.attr_fn_like_width {
        let vs = usize_to_string(v);
        push_entry(out, "attr_fn_like_width", vs.as_str());
        proof {
            lemma_entry_shape(before, "attr_fn_like_width"@, " = "@, vs@, "\n"@);
        }
    }
    proof {
        let e = opt_entry(*c, Field::AttrFnLikeWidth);
        if is_set(*c, Field::AttrFnLikeWidth) {
            assert(out@ == before + e);
        } else {
            lemma_add_empty(acc);
        }
        lemma_add_assoc(base, acc, e);
        acc = acc + e;
        assert(out@ == base + acc);
    }
    let ghost before = out@;
    if let Some(v) = c.struct_lit_width {
        let vs = usize_to_string(v);
        push_entry(out, "struct_lit_width", vs.as_str());
        proof {
            lemma_entry_shape(before, "struct_lit_width"@, " = "@, vs@, "\n"@);
        }
    }
    proof {
        let e = opt_entry(*c, Field::StructLitWidth);
        if is_set(*c, Field::StructLitWidth) {
            assert(out@ == before + e);
        } else {
            lemma_add_empty(acc);
        }
        lemma_add_assoc(base, acc, e);
        acc = acc + e;
        assert(out@ == base + acc);
    }
    let ghost before = out@;
    if let Some(v) = c.struct_variant_width {
        let vs = usize_to_string(v);
        push_entry(out, "struct_variant_width", vs.as_str());
        proof {
            lemma_entry_shape(before, "struct_variant_width"@, " = "@, vs@, "\n"@);
        }
    }
    proof {
        let e = opt_entry(*c, Field::StructVariantWidth);
        if is_set(*c, Field::StructVariantWidth) {
            assert(out@ == before + e);
        } else {
            lemma_add_empty(acc);
        }
        lemma_add_assoc(base, acc, e);
        acc = acc + e;
        assert(out@ == base + acc);
    }
    let ghost before = out@;
    if let Some(v) = c.array_width {
        let vs = usize_to_string(v);
        push_entry(out, "array_width", vs.as_str());
        proof {
            lemma_entry_shape(before, "array_width"@, " = "@, vs@, "\n"@);
        }
    }
    proof {
        let e = opt_entry(*c, Field::ArrayWidth);
        if is_set(*c, Field::ArrayWidth) {
            assert(out@ == before + e);
        } else {
            lemma_add_empty(acc);
        }
        lemma_add_assoc(base, acc, e);
        acc = acc + e;
        assert(out@ == base + acc);
    }
    let ghost before = out@;
    if let Some(v) = c.chain_width {
        let vs = usize_to_string(v);
        push_entry(out, "chain_width", vs.as_str());
        proof {
            lemma_entry_shape(before, "chain_width"@, " = "@, vs@, "\n"@);
        }
    }
    proof {
        let e = opt_entry(*c, Field::ChainWidth);
        if is_set(*c, Field::ChainWidth) {
            assert(out@ == before + e);
        } else {
            lemma_add_empty(acc);
        }
        lemma_add_assoc(base, acc, e);
        acc = acc + e;
        assert(out@ == base + acc);
    }
    let ghost before = out@;
    if let Some(v) = c.single_line_if_else_max_width {
        let vs = usize_to_string(v);
        push_entry(out, "single_line_if_else_max_width", vs.as_str());
        proof {
            lemma_entry_shape(before, "single_line_if_else_max_width"@, " = "@, vs@, "\n"@);
        }
    }
    proof {
        let e = opt_entry(*c, Field::SingleLineIfElseMaxWidth);
        if is_set(*c, Field::SingleLineIfElseMaxWidth) {
            assert(out@ == before + e);
        } else {
            lemma_add_empty(acc);
        }
        lemma_add_assoc(base, acc, e);
        acc = acc + e;
        assert(out@ == base + acc);
    }
    proof {
        lemma_empty_add(opt_entry(*c, Field::UseSmallHeuristics));
        assert(acc == serial_heuristics(*c));
    }
}

#[verifier::rlimit(100)]
fn write_comment_wrapping(out: &mut String, c: &Config)
    ensures
        final(out)@ == old(out)@ + serial_comment_wrapping(*c),
{
    let ghost base = out@;
    let ghost mut acc: Seq<char> = Seq::empty();
    let ghost before = out@;
    if let Some(v) = c.wrap_comments {
        let vs = bool_str(v);
        push_entry(out, "wrap_comments", vs);
        proof {
            lemma_entry_shape(before, "wrap_comments"@, " = "@, vs@, "\n"@);
        }
    }
    proof {
        let e = opt_entry(*c, Field::WrapComments);
        if is_set(*c, Field::WrapComments) {
            assert(out@ == before + e);
        } else {
            lemma_add_empty(acc);
        }
        lemma_add_assoc(base, acc, e);
        acc = acc + e;
        assert(out@ == base + acc);
    }
    let ghost before = out@;
    if let Some(v) = c.format_code_in_doc_comments {
        let vs = bool_str(v);
        push_entry(out, "format_code_in_doc_comments", vs);
        proof {
            lemma_entry_shape(before, "format_code_in_doc_comments"@, " = "@, vs@, "\n"@);
        }
    }
    proof {
        let e = opt_entry(*c, Field::FormatCodeInDocComments);
        if is_set(*c, Field::FormatCodeInDocComments) {
            assert(out@ == before + e);
        } else {
            lemma_add_empty(acc);
        }
        lemma_add_assoc(base, acc, e);
        acc = acc + e;
        assert(out@ == base + acc);
    }
    let ghost before = out@;
    if let Some(v) = c.doc_comment_code_block_width {
        let vs = usize_to_string(v);
        push_entry(out, "doc_comment_code_block_width", vs.as_str());
        proof {
            lemma_entry_shape(before, "doc_comment_code_block_width"@, " = "@, vs@, "\n"@);
        }
    }
    proof {
        let e = opt_entry(*c, Field::DocCommentCodeBlockWidth);
        if is_set(*c, Field::DocCommentCodeBlockWidth) {
            assert(out@ == before + e);
        } else {
            lemma_add_empty(acc);
        }
        lemma_add_assoc(base, acc, e);
        acc = acc + e;
        assert(out@ == base + acc);
    }
    let ghost before = out@;
    if let Some(v) = c.comment_width {
        let vs = usize_to_string(v);
        push_entry(out, "comment_width", vs.as_str());
        proof {
            lemma_entry_shape(before, "comment_width"@, " = "@, vs@, "\n"@);
        }
    }
    proof {
        let e = opt_entry(*c, Field::CommentWidth);
        if is_set(*c, Field::CommentWidth) {
            assert(out@ == before + e);
        } else {
            lemma_add_empty(acc);
        }
        lemma_add_assoc(base, acc, e);
        acc = acc + e;
        assert(out@ == base + acc);
    }
    let ghost before = out@;
    if let Some(v) = c.normalize_comments {
        let vs = bool_str(v);
        push_entry(out, "normalize_comments", vs);
        proof {
            lemma_entry_shape(before, "normalize_comments"@, " = "@, vs@, "\n"@);
        }
    }
    proof {
        let e = opt_entry(*c, Field::NormalizeComments);
        if is_set(*c, Field::NormalizeComments) {
            assert(out@ == before + e);
        } else {
            lemma_add_empty(acc);
        }
        lemma_add_assoc(base, acc, e);
        acc = acc + e;
        assert(out@ == base + acc);
    }
    proof {
        lemma_empty_add(opt_entry(*c, Field::WrapComments));
        assert(acc == serial_comment_wrapping(*c));
    }
}

#[verifier::rlimit(100)]
fn write_comment_normalizing(out: &mut String, c: &Config)
    ensures
        final(out)@ == old(out)@ + serial_comment_normalizing(*c),
{
    let ghost base = out@;
    let ghost mut acc: Seq<char> = Seq::empty();
    let ghost before = out@;
    if let Some(v) = c.normalize_doc_attributes {
        let vs = bool_str(v);
        push_entry(out, "normalize_doc_attributes", vs);
        proof {
            lemma_entry_shape(before, "normalize_doc_attributes"@, " = "@, vs@, "\n"@);
        }
    }
    proof {
        let e = opt_entry(*c, Field::NormalizeDocAttributes);
        if is_set(*c, Field::NormalizeDocAttributes) {
            assert(out@ == before + e);
        } else {
            lemma_add_empty(acc);
        }
        lemma_add_assoc(base, acc, e);
        acc = acc + e;
        assert(out@ == base + acc);
    }
    let ghost before = out@;
    if let Some(v) = c.format_strings {
        let vs = bool_str(v);
        push_entry(out, "format_strings", vs);
        proof {
            lemma_entry_shape(before, "format_strings"@, " = "@, vs@, "\n"@);
        }
    }
    proof {
        let e = opt_entry(*c, Field::FormatStrings);
        if is_set(*c, Field::FormatStrings) {
            assert(out@ == before + e);
        } else {
            lemma_add_empty(acc);
        }
        lemma_add_assoc(base, acc, e);
        acc = acc + e;
        assert(out@ == base + acc);
    }
    let ghost before = out@;
    if let Some(v) = c.format_macro_matchers {
        let vs = bool_str(v);
        push_entry(out, "format_macro_matchers", vs);
        proof {
            lemma_entry_shape(before, "format_macro_matchers"@, " = "@, vs@, "\n"@);
        }
    }
    proof {
        let e = opt_entry(*c, Field::FormatMacroMatchers);
        if is_set(*c, Field::FormatMacroMatchers) {
            assert(out@ == before + e);
        } else {
            lemma_add_empty(acc);
        }
        lemma_add_assoc(base, acc, e);
        acc = acc + e;
        assert(out@ == base + acc);
    }
    let ghost before = out@;
    if let Some(v) = c.format_macro_bodies {
        let vs = bool_str(v);
        push_entry(out, "format_macro_bodies", vs);
        proof {
            lemma_entry_shape(before, "format_macro_bodies"@, " = "@, vs@, "\n"@);
        }
    }
    proof {
        let e = opt_entry(*c, Field::FormatMacroBodies);
        if is_set(*c, Field::FormatMacroBodies) {
            assert(out@ == before + e);
        } else {
            lemma_add_empty(acc);
        }
        lemma_add_assoc(base, acc, e);
        acc = acc + e;
        assert(out@ == base + acc);
    }
    let ghost before = out@;
    if let Some(v) = c.hex_literal_case {
        let vs = hex_literal_case_str(v);
        push_quoted_entry(out, "hex_literal_case", vs);
        proof {
            lemma_quoted_shape(before, "hex_literal_case"@, " = "@, "\""@, vs@, "\""@, "\n"@);
        }
    }
    proof {
        let e = opt_entry(*c, Field::HexLiteralCase);
        if is_set(*c, Field::HexLiteralCase) {
            assert(out@ == before + e);
        } else {
            lemma_add_empty(acc);
        }
        lemma_add_assoc(base, acc, e);
        acc = acc + e;
        assert(out@ == base + acc);
    }
    proof {
        lemma_empty_add(opt_entry(*c, Field::NormalizeDocAttributes));
        assert(acc == serial_comment_normalizing(*c));
    }
}

#[verifier::rlimit(100)]
fn write_single_line(out: &mut String, c: &Config)
    ensures
        final(out)@ == old(out)@ + serial_single_line(*c),
{
    let ghost base = out@;
    let ghost mut acc: Seq<char> = Seq::empty();
    let ghost before = out@;
    if let Some(v) = c.empty_item_single_line {
        let vs = bool_str(v);
        push_entry(out, "empty_item_single_line", vs);
        proof {
            lemma_entry_shape(before, "empty_item_single_line"@, " = "@, vs@, "\n"@);
        }
    }
    proof {
        let e = opt_entry(*c, Field::EmptyItemSingleLine);
        if is_set(*c, Field::EmptyItemSingleLine) {
            assert(out@ == before + e);
        } else {
            lemma_add_empty(acc);
        }
        lemma_add_assoc(base, acc, e);
        acc = acc + e;
        assert(out@ == base + acc);
    }
    let ghost before = out@;
    if let Some(v) = c.struct_lit_single_line {
        let vs = bool_str(v);
        push_entry(out, "struct_lit_single_line", vs);
        proof {
            lemma_entry_shape(before, "struct_lit_single_line"@, " = "@, vs@, "\n"@);
        }
    }
    proof {
        let e = opt_entry(*c, Field::StructLitSingleLine);
        if is_set(*c, Field::StructLitSingleLine) {
            assert(out@ == before + e);
        } else {
            lemma_add_empty(acc);
        }
        lemma_add_assoc(base, acc, e);
        acc = acc + e;
        assert(out@ == base + acc);
    }
    let ghost before = out@;
    if let Some(v) = c.fn_single_line {
        let vs = bool_str(v);
        push_entry(out, "fn_single_line", vs);
        proof {
            lemma_entry_shape(before, "fn_single_line"@, " = "@, vs@, "\n"@);
        }
    }
    proof {
        let e = opt_entry(*c, Field::FnSingleLine);
        if is_set(*c, Field::FnSingleLine) {
            assert(out@ == before + e);
        } else {
            lemma_add_empty(acc);
        }
        lemma_add_assoc(base, acc, e);
        acc = acc + e;
        assert(out@ == base + acc);
    }
    let ghost before = out@;
    if let Some(v) = c.where_single_line {
        let vs = bool_str(v);
        push_entry(out, "where_single_line", vs);
        proof {
            lemma_entry_shape(before, "where_single_line"@, " = "@, vs@, "\n"@);
        }
    }
    proof {
        let e = opt_entry(*c, Field::WhereSingleLine);
        if is_set(*c, Field::WhereSingleLine) {
            assert(out@ == before + e);
        } else {
            lemma_add_empty(acc);
        }
        lemma_add_assoc(base, acc, e);
        acc = acc + e;
        assert(out@ == base + acc);
    }
    proof {
        lemma_empty_add(opt_entry(*c, Field::EmptyItemSingleLine));
        assert(acc == serial_single_line(*c));
    }
}

#[verifier::rlimit(100)]
fn write_imports(out: &mut String, c: &Config)
    ensures
        final(out)@ == old(out)@ + serial_imports(*c),
{
    let ghost base = out@;
    let ghost mut acc: Seq<char> = Seq::empty();
    let ghost before = out@;
    if let Some(v) = c.imports_indent {
        let vs = indent_style_str(v);
        push_quoted_entry(out, "imports_indent", vs);
        proof {
            lemma_quoted_shape(before, "imports_indent"@, " = "@, "\""@, vs@, "\""@, "\n"@);
        }
    }
    proof {
        let e = opt_entry(*c, Field::ImportsIndent);
        if is_set(*c, Field::ImportsIndent) {
            assert(out@ == before + e);
        } else {
            lemma_add_empty(acc);
        }
        lemma_add_assoc(base, acc, e);
        acc = acc + e;
        assert(out@ == base + acc);
    }
    let ghost before = out@;
    if let Some(v) = c.imports_layout {
        let vs = list_tactic_str(v);
        push_quoted_entry(out, "imports_layout", vs);
        proof {
            lemma_quoted_shape(before, "imports_layout"@, " = "@, "\""@, vs@, "\""@, "\n"@);
        }
    }
    proof {
        let e = opt_entry(*c, Field::ImportsLayout);
        if is_set(*c, Field::ImportsLayout) {
            assert(out@ == before + e);
        } else {
            lemma_add_empty(acc);
        }
        lemma_add_assoc(base, acc, e);
        acc = acc + e;
        assert(out@ == base + acc);
    }
    let ghost before = out@;
    if let Some(v) = c.imports_granularity {
        let vs = import_granularity_str(v);
        push_quoted_entry(out, "imports_granularity", vs);
        proof {
            lemma_quoted_shape(before, "imports_granularity"@, " = "@, "\""@, vs@, "\""@, "\n"@);
        }
    }
    proof {
        let e = opt_entry(*c, Field::ImportsGranularity);
        if is_set(*c, Field::ImportsGranularity) {
            assert(out@ == before + e);
        } else {
            lemma_add_empty(acc);
        }
        lemma_add_assoc(base, acc, e);
        acc = acc + e;
        assert(out@ == base + acc);
    }
    let ghost before = out@;
    if let Some(v) = c.group_imports {
        let vs = group_imports_tactic_str(v);
        push_quoted_entry(out, "group_imports", vs);
        proof {
            lemma_quoted_shape(before, "group_imports"@, " = "@, "\""@, vs@, "\""@, "\n"@);
        }
    }
    proof {
        let e = opt_entry(*c, Field::GroupImports);
        if is_set(*c, Field::GroupImports) {
            assert(out@ == before + e);
        } else {
            lemma_add_empty(acc);
        }
        lemma_add_assoc(base, acc, e);
        acc = acc + e;
        assert(out@ == base + acc);
    }
    let ghost before = out@;
    if let Some(v) = c.merge_imports {
        let vs = bool_str(v);
        push_entry(out, "merge_imports", vs);
        proof {
            lemma_entry_shape(before, "merge_imports"@, " = "@, vs@, "\n"@);
        }
    }
    proof {
        let e = opt_entry(*c, Field::MergeImports);
        if is_set(*c, Field::MergeImports) {
            assert(out@ == before + e);
        } else {
            lemma_add_empty(acc);
        }
        lemma_add_assoc(base, acc, e);
        acc = acc + e;
        assert(out@ == base + acc);
    }
    proof {
        lemma_empty_add(opt_entry(*c, Field::ImportsIndent));
        assert(acc == serial_imports(*c));
    }
}

#[verifier::rlimit(100)]
fn write_ordering(out: &mut String, c: &Config)
    ensures
        final(out)@ == old(out)@ + serial_ordering(*c),
{
    let ghost base = out@;
    let ghost mut acc: Seq<char> = Seq::empty();
    let ghost before = out@;
    if let Some(v) = c.reorder_imports {
        let vs = bool_str(v);
        push_entry(out, "reorder_imports", vs);
        proof {
            lemma_entry_shape(before, "reorder_imports"@, " = "@, vs@, "\n"@);
        }
    }
    proof {
        let e = opt_entry(*c, Field::ReorderImports);
        if is_set(*c, Field::ReorderImports) {
            assert(out@ == before + e);
        } else {
            lemma_add_empty(acc);
        }
        lemma_add_assoc(base, acc, e);
        acc = acc + e;
        assert(out@ == base + acc);
    }
    let ghost before = out@;
    if let Some(v) = c.reorder_modules {
        let vs = bool_str(v);
        push_entry(out, "reorder_modules", vs);
        proof {
            lemma_entry_shape(before, "reorder_modules"@, " = "@, vs@, "\n"@);
        }
    }
    proof {
        let e = opt_entry(*c, Field::ReorderModules);
        if is_set(*c, Field::ReorderModules) {
            assert(out@ == before + e);
        } else {
            lemma_add_empty(acc);
        }
        lemma_add_assoc(base, acc, e);
        acc = acc + e;
        assert(out@ == base + acc);
    }
    let ghost before = out@;
    if let Some(v) = c.reorder_impl_items {
        let vs = bool_str(v);
        push_entry(out, "reorder_impl_items", vs);
        proof {
            lemma_entry_shape(before, "reorder_impl_items"@, " = "@, vs@, "\n"@);
        }
    }
    proof {
        let e = opt_entry(*c, Field::ReorderImplItems);
        if is_set(*c, Field::ReorderImplItems) {
            assert(out@ == before + e);
        } else {
            lemma_add_empty(acc);
        }
        lemma_add_assoc(base, acc, e);
        acc = acc + e;
        assert(out@ == base + acc);
    }
    proof {
        lemma_empty_add(opt_entry(*c, Field::ReorderImports));
        assert(acc == serial_ordering(*c));
    }
}

#[verifier::rlimit(100)]
fn write_spaces(out: &mut String, c: &Config)
    ensures
        final(out)@ == old(out)@ + serial_spaces(*c),
{
    let ghost base = out@;
    let ghost mut acc: Seq<char> = Seq::empty();
    let ghost before = out@;
    if let Some(v) = c.type_punctuation_density {
        let vs = type_density_str(v);
        push_quoted_entry(out, "type_punctuation_density", vs);
        proof {
            lemma_quoted_shape(before, "type_punctuation_density"@, " = "@, "\""@, vs@, "\""@, "\n"@);
        }
    }
    proof {
        let e = opt_entry(*c, Field::TypePunctuationDensity);
        if is_set(*c, Field::TypePunctuationDensity) {
            assert(out@ == before + e);
        } else {
            lemma_add_empty(acc);
        }
        lemma_add_assoc(base, acc, e);
        acc = acc + e;
        assert(out@ == base + acc);
    }
    let ghost before = out@;
    if let Some(v) = c.space_before_colon {
        let vs = bool_str(v);
        push_entry(out, "space_before_colon", vs);
        proof {
            lemma_entry_shape(before, "space_before_colon"@, " = "@, vs@, "\n"@);
        }
    }
    proof {
        let e = opt_entry(*c, Field::SpaceBeforeColon);
        if is_set(*c, Field::SpaceBeforeColon) {
            assert(out@ == before + e);
        } else {
            lemma_add_empty(acc);
        }
        lemma_add_assoc(base, acc, e);
        acc = acc + e;
        assert(out@ == base + acc);
    }
    let ghost before = out@;
    if let Some(v) = c.space_after_colon {
        let vs = bool_str(v);
        push_entry(out, "space_after_colon", vs);
        proof {
            lemma_entry_shape(before, "space_after_colon"@, " = "@, vs@, "\n"@);
        }
    }
    proof {
        let e = opt_entry(*c, Field::SpaceAfterColon);
        if is_set(*c, Field::SpaceAfterColon) {
            assert(out@ == before + e);
        } else {
            lemma_add_empty(acc);
        }
        lemma_add_assoc(base, acc, e);
        acc = acc + e;
        assert(out@ == base + acc);
    }
    let ghost before = out@;
    if let Some(v) = c.spaces_around_ranges {
        let vs = bool_str(v);
        push_entry(out, "spaces_around_ranges", vs);
        proof {
            lemma_entry_shape(before, "spaces_around_ranges"@, " = "@, vs@, "\n"@);
        }
    }
    proof {
        let e = opt_entry(*c, Field::SpacesAroundRanges);
        if is_set(*c, Field::SpacesAroundRanges) {
            assert(out@ == before + e);
        } else {
            lemma_add_empty(acc);
        }
        lemma_add_assoc(base, acc, e);
        acc = acc + e;
        assert(out@ == base + acc);
    }
    let ghost before = out@;
    if let Some(v) = c.binop_separator {
        let vs = separator_place_str(v);
        push_quoted_entry(out, "binop_separator", vs);
        proof {
            lemma_quoted_shape(before, "binop_separator"@, " = "@, "\""@, vs@, "\""@, "\n"@);
        }
    }
    proof {
        let e = opt_entry(*c, Field::BinopSeparator);
        if is_set(*c, Field::BinopSeparator) {
            assert(out@ == before + e);
        } else {
            lemma_add_empty(acc);
        }
        lemma_add_assoc(base, acc, e);
        acc = acc + e;
        assert(out@ == base + acc);
    }
    proof {
        lemma_empty_add(opt_entry(*c, Field::TypePunctuationDensity));
        assert(acc == serial_spaces(*c));
    }
}

#[verifier::rlimit(100)]
fn write_expressions(out: &mut String, c: &Config)
    ensures
        final(out)@ == old(out)@ + serial_expressions(*c),
{
    let ghost base = out@;
    let ghost mut acc: Seq<char> = Seq::empty();
    let ghost before = out@;
    if let Some(v) = c.remove_nested_parens {
        let vs = bool_str(v);
        push_entry(out, "remove_nested_parens", vs);
        proof {
            lemma_entry_shape(before, "remove_nested_parens"@, " = "@, vs@, "\n"@);
        }
    }
    proof {
        let e = opt_entry(*c, Field::RemoveNestedParens);
        if is_set(*c, Field::RemoveNestedParens) {
            assert(out@ == before + e);
        } else {
            lemma_add_empty(acc);
        }
        lemma_add_assoc(base, acc, e);
        acc = acc + e;
        assert(out@ == base + acc);
    }
    let ghost before = out@;
    if let Some(v) = c.combine_control_expr {
        let vs = bool_str(v);
        push_entry(out, "combine_control_expr", vs);
        proof {
            lemma_entry_shape(before, "combine_control_expr"@, " = "@, vs@, "\n"@);
        }
    }
    proof {
        let e = opt_entry(*c, Field::CombineControlExpr);
        if is_set(*c, Field::CombineControlExpr) {
            assert(out@ == before + e);
        } else {
            lemma_add_empty(acc);
        }
        lemma_add_assoc(base, acc, e);
        acc = acc + e;
        assert(out@ == base + acc);
    }
    let ghost before = out@;
    if let Some(v) = c.short_array_element_width_threshold {
        let vs = usize_to_string(v);
        push_entry(out, "short_array_element_width_threshold", vs.as_str());
        proof {
            lemma_entry_shape(before, "short_array_element_width_threshold"@, " = "@, vs@, "\n"@);
        }
    }
    proof {
        let e = opt_entry(*c, Field::ShortArrayElementWidthThreshold);
        if is_set(*c, Field::ShortArrayElementWidthThreshold) {
            assert(out@ == before + e);
        } else {
            lemma_add_empty(acc);
        }
        lemma_add_assoc(base, acc, e);
        acc = acc + e;
        assert(out@ == base + acc);
    }
    let ghost before = out@;
    if let Some(v) = c.overflow_delimited_expr {
        let vs = bool_str(v);
        push_entry(out, "overflow_delimited_expr", vs);
        proof {
            lemma_entry_shape(before, "overflow_delimited_expr"@, " = "@, vs@, "\n"@);
        }
    }
    proof {
        let e = opt_entry(*c, Field::OverflowDelimitedExpr);
        if is_set(*c, Field::OverflowDelimitedExpr) {
            assert(out@ == before + e);
        } else {
            lemma_add_empty(acc);
        }
        lemma_add_assoc(base, acc, e);
        acc = acc + e;
        assert(out@ == base + acc);
    }
    let ghost before = out@;
    if let Some(v) = c.struct_field_align_threshold {
        let vs = usize_to_string(v);
        push_entry(out, "struct_field_align_threshold", vs.as_str());
        proof {
            lemma_entry_shape(before, "struct_field_align_threshold"@, " = "@, vs@, "\n"@);
        }
    }
    proof {
        let e = opt_entry(*c, Field::StructFieldAlignThreshold);
        if is_set(*c, Field::StructFieldAlignThreshold) {
            assert(out@ == before + e);
        } else {
            lemma_add_empty(acc);
        }
        lemma_add_assoc(base, acc, e);
        acc = acc + e;
        assert(out@ == base + acc);
    }
    let ghost before = out@;
    if let Some(v) = c.enum_discrim_align_threshold {
        let vs = usize_to_string(v);
        push_entry(out, "enum_discrim_align_threshold", vs.as_str());
        proof {
            lemma_entry_shape(before, "enum_discrim_align_threshold"@, " = "@, vs@, "\n"@);
        }
    }
    proof {
        let e = opt_entry(*c, Field::EnumDiscrimAlignThreshold);
        if is_set(*c, Field::EnumDiscrimAlignThreshold) {
            assert(out@ == before + e);
        } else {
            lemma_add_empty(acc);
        }
        lemma_add_assoc(base, acc, e);
        acc = acc + e;
        assert(out@ == base + acc);
    }
    let ghost before = out@;
    if let Some(v) = c.match_arm_blocks {
        let vs = bool_str(v);
        push_entry(out, "match_arm_blocks", vs);
        proof {
            lemma_entry_shape(before, "match_arm_blocks"@, " = "@, vs@, "\n"@);
        }
    }
    proof {
        let e = opt_entry(*c, Field::MatchArmBlocks);
        if is_set(*c, Field::MatchArmBlocks) {
            assert(out@ == before + e);
        } else {
            lemma_add_empty(acc);
        }
        lemma_add_assoc(base, acc, e);
        acc = acc + e;
        assert(out@ == base + acc);
    }
    proof {
        lemma_empty_add(opt_entry(*c, Field::RemoveNestedParens));
        assert(acc == serial_expressions(*c));
    }
}

#[verifier::rlimit(100)]
fn write_items(out: &mut String, c: &Config)
    ensures
        final(out)@ == old(out)@ + serial_items(*c),
{
    let ghost base = out@;
    let ghost mut acc: Seq<char> = Seq::empty();
    let ghost before = out@;
    if let Some(v) = c.match_arm_leading_pipes {
        let vs = match_arm_leading_pipe_str(v);
        push_quoted_entry(out, "match_arm_leading_pipes", vs);
        proof {
            lemma_quoted_shape(before, "match_arm_leading_pipes"@, " = "@, "\""@, vs@, "\""@, "\n"@);
        }
    }
    proof {
        let e = opt_entry(*c, Field::MatchArmLeadingPipes);
        if is_set(*c, Field::MatchArmLeadingPipes) {
            assert(out@ == before + e);
        } else {
            lemma_add_empty(acc);
        }
        lemma_add_assoc(base, acc, e);
        acc = acc + e;
        assert(out@ == base + acc);
    }
    let ghost before = out@;
    if let Some(v) = c.force_multiline_blocks {
        let vs = bool_str(v);
        push_entry(out, "force_multiline_blocks", vs);
        proof {
            lemma_entry_shape(before, "force_multiline_blocks"@, " = "@, vs@, "\n"@);
        }
    }
    proof {
        let e = opt_entry(*c, Field::ForceMultilineBlocks);
        if is_set(*c, Field::ForceMultilineBlocks) {
            assert(out@ == before + e);
        } else {
            lemma_add_empty(acc);
        }
        lemma_add_assoc(base, acc, e);
        acc = acc + e;
        assert(out@ == base + acc);
    }
    let ghost before = out@;
    if let Some(v) = c.fn_args_layout {
        let vs = density_str(v);
        push_quoted_entry(out, "fn_args_layout", vs);
        proof {
            lemma_quoted_shape(before, "fn_args_layout"@, " = "@, "\""@, vs@, "\""@, "\n"@);
        }
    }
    proof {
        let e = opt_entry(*c, Field::FnArgsLayout);
        if is_set(*c, Field::FnArgsLayout) {
            assert(out@ == before + e);
        } else {
            lemma_add_empty(acc);
        }
        lemma_add_assoc(base, acc, e);
        acc = acc + e;
        assert(out@ == base + acc);
    }
    let ghost before = out@;
    if let Some(v) = c.brace_style {
        let vs = brace_style_str(v);
        push_quoted_entry(out, "brace_style", vs);
        proof {
            lemma_quoted_shape(before, "brace_style"@, " = "@, "\""@, vs@, "\""@, "\n"@);
        }
    }
    proof {
        let e = opt_entry(*c, Field::BraceStyle);
        if is_set(*c, Field::BraceStyle) {
            assert(out@ == before + e);
        } else {
            lemma_add_empty(acc);
        }
        lemma_add_assoc(base, acc, e);
        acc = acc + e;
        assert(out@ == base + acc);
    }
    proof {
        lemma_empty_add(opt_entry(*c, Field::MatchArmLeadingPipes));
        assert(acc == serial_items(*c));
    }
}

#[verifier::rlimit(100)]
fn write_control_flow(out: &mut String, c: &Config)
    ensures
        final(out)@ == old(out)@ + serial_control_flow(*c),
{
    let ghost base = out@;
    let ghost mut acc: Seq<char> = Seq::empty();
    let ghost before = out@;
    if let Some(v) = c.control_brace_style {
        let vs = control_brace_style_str(v);
        push_quoted_entry(out, "control_brace_style", vs);
        proof {
            lemma_quoted_shape(before, "control_brace_style"@, " = "@, "\""@, vs@, "\""@, "\n"@);
        }
    }
    proof {
        let e = opt_entry(*c, Field::ControlBraceStyle);
        if is_set(*c, Field::ControlBraceStyle) {
            assert(out@ == before + e);
        } else {
            lemma_add_empty(acc);
        }
        lemma_add_assoc(base, acc, e);
        acc = acc + e;
        assert(out@ == base + acc);
    }
    let ghost before = out@;
    if let Some(v) = c.trailing_semicolon {
        let vs = bool_str(v);
        push_entry(out, "trailing_semicolon", vs);
        proof {
            lemma_entry_shape(before, "trailing_semicolon"@, " = "@, vs@, "\n"@);
        }
    }
    proof {
        let e = opt_entry(*c, Field::TrailingSemicolon);
        if is_set(*c, Field::TrailingSemicolon) {
            assert(out@ == before + e);
        } else {
            lemma_add_empty(acc);
        }
        lemma_add_assoc(base, acc, e);
        acc = acc + e;
        assert(out@ == base + acc);
    }
    let ghost before = out@;
    if let Some(v) = c.trailing_comma {
        let vs = separator_tactic_str(v);
        push_quoted_entry(out, "trailing_comma", vs);
        proof {
            lemma_quoted_shape(before, "trailing_comma"@, " = "@, "\""@, vs@, "\""@, "\n"@);
        }
    }
    proof {
        let e = opt_entry(*c, Field::TrailingComma);
        if is_set(*c, Field::TrailingComma) {
            assert(out@ == before + e);
        } else {
            lemma_add_empty(acc);
        }
        lemma_add_assoc(base, acc, e);
        acc = acc + e;
        assert(out@ == base + acc);
    }
    proof {
        lemma_empty_add(opt_entry(*c, Field::ControlBraceStyle));
        assert(acc == serial_control_flow(*c));
    }
}

#[verifier::rlimit(100)]
fn write_layout(out: &mut String, c: &Config)
    ensures
        final(out)@ == old(out)@ + serial_layout(*c),
{
    let ghost base = out@;
    let ghost mut acc: Seq<char> = Seq::empty();
    let ghost before = out@;
    if let Some(v) = c.match_block_trailing_comma {
        let vs = bool_str(v);
        push_entry(out, "match_block_trailing_comma", vs);
        proof {
            lemma_entry_shape(before, "match_block_trailing_comma"@, " = "@, vs@, "\n"@);
        }
    }
    proof {
        let e = opt_entry(*c, Field::MatchBlockTrailingComma);
        if is_set(*c, Field::MatchBlockTrailingComma) {
            assert(out@ == before + e);
        } else {
            lemma_add_empty(acc);
        }
        lemma_add_assoc(base, acc, e);
        acc = acc + e;
        assert(out@ == base + acc);
    }
    let ghost before = out@;
    if let Some(v) = c.blank_lines_upper_bound {
        let vs = usize_to_string(v);
        push_entry(out, "blank_lines_upper_bound", vs.as_str());
        proof {
            lemma_entry_shape(before, "blank_lines_upper_bound"@, " = "@, vs@, "\n"@);
        }
    }
    proof {
        let e = opt_entry(*c, Field::BlankLinesUpperBound);
        if is_set(*c, Field::BlankLinesUpperBound) {
            assert(out@ == before + e);
        } else {
            lemma_add_empty(acc);
        }
        lemma_add_assoc(base, acc, e);
        acc = acc + e;
        assert(out@ == base + acc);
    }
    let ghost before = out@;
    if let Some(v) = c.blank_lines_lower_bound {
        let vs = usize_to_string(v);
        push_entry(out, "blank_lines_lower_bound", vs.as_str());
        proof {
            lemma_entry_shape(before, "blank_lines_lower_bound"@, " = "@, vs@, "\n"@);
        }
    }
    proof {
        let e = opt_entry(*c, Field::BlankLinesLowerBound);
        if is_set(*c, Field::BlankLinesLowerBound) {
            assert(out@ == before + e);
        } else {
            lemma_add_empty(acc);
        }
        lemma_add_assoc(base, acc, e);
        acc = acc + e;
        assert(out@ == base + acc);
    }
    let ghost before = out@;
    if let Some(v) = c.edition {
        let vs = edition_str(v);
        push_quoted_entry(out, "edition", vs);
        proof {
            lemma_quoted_shape(before, "edition"@, " = "@, "\""@, vs@, "\""@, "\n"@);
        }
    }
    proof {
        let e = opt_entry(*c, Field::Edition);
        if is_set(*c, Field::Edition) {
            assert(out@ == before + e);
        } else {
            lemma_add_empty(acc);
        }
        lemma_add_assoc(base, acc, e);
        acc = acc + e;
        assert(out@ == base + acc);
    }
    let ghost before = out@;
    if let Some(v) = c.version {
        let vs = version_str(v);
        push_quoted_entry(out, "version", vs);
        proof {
            lemma_quoted_shape(before, "version"@, " = "@, "\""@, vs@, "\""@, "\n"@);
        }
    }
    proof {
        let e = opt_entry(*c, Field::Version);
        if is_set(*c, Field::Version) {
            assert(out@ == before + e);
        } else {
            lemma_add_empty(acc);
        }
        lemma_add_assoc(base, acc, e);
        acc = acc + e;
        assert(out@ == base + acc);
    }
    let ghost before = out@;
    if let Some(v) = c.inline_attribute_width {
        let vs = usize_to_string(v);
        push_entry(out, "inline_attribute_width", vs.as_str());
        proof {
            lemma_entry_shape(before, "inline_attribute_width"@, " = "@, vs@, "\n"@);
        }
    }
    proof {
        let e = opt_entry(*c, Field::InlineAttributeWidth);
        if is_set(*c, Field::InlineAttributeWidth) {
            assert(out@ == before + e);
        } else {
            lemma_add_empty(acc);
        }
        lemma_add_assoc(base, acc, e);
        acc = acc + e;
        assert(out@ == base + acc);
    }
    let ghost before = out@;
    if let Some(v) = c.format_generated_files {
        let vs = bool_str(v);
        push_entry(out, "format_generated_files", vs);
        proof {
            lemma_entry_shape(before, "format_generated_files"@, " = "@, vs@, "\n"@);
        }
    }
    proof {
        let e = opt_entry(*c, Field::FormatGeneratedFiles);
        if is_set(*c, Field::FormatGeneratedFiles) {
            assert(out@ == before + e);
        } else {
            lemma_add_empty(acc);
        }
        lemma_add_assoc(base, acc, e);
        acc = acc + e;
        assert(out@ == base + acc);
    }
    proof {
        lemma_empty_add(opt_entry(*c, Field::MatchBlockTrailingComma));
        assert(acc == serial_layout(*c));
    }
}

#[verifier::rlimit(100)]
fn write_linty(out: &mut String, c: &Config)
    ensures
        final(out)@ == old(out)@ + serial_linty(*c),
{
    let ghost base = out@;
    let ghost mut acc: Seq<char> = Seq::empty();
    let ghost before = out@;
    if let Some(v) = c.merge_derives {
        let vs = bool_str(v);
        push_entry(out, "merge_derives", vs);
        proof {
            lemma_entry_shape(before, "merge_derives"@, " = "@, vs@, "\n"@);
        }
    }
    proof {
        let e = opt_entry(*c, Field::MergeDerives);
        if is_set(*c, Field::MergeDerives) {
            assert(out@ == before + e);
        } else {
            lemma_add_empty(acc);
        }
        lemma_add_assoc(base, acc, e);
        acc = acc + e;
        assert(out@ == base + acc);
    }
    let ghost before = out@;
    if let Some(v) = c.use_try_shorthand {
        let vs = bool_str(v);
        push_entry(out, "use_try_shorthand", vs);
        proof {
            lemma_entry_shape(before, "use_try_shorthand"@, " = "@, vs@, "\n"@);
        }
    }
    proof {
        let e = opt_entry(*c, Field::UseTryShorthand);
        if is_set(*c, Field::UseTryShorthand) {
            assert(out@ == before + e);
        } else {
            lemma_add_empty(acc);
        }
        lemma_add_assoc(base, acc, e);
        acc = acc + e;
        assert(out@ == base + acc);
    }
    let ghost before = out@;
    if let Some(v) = c.use_field_init_shorthand {
        let vs = bool_str(v);
        push_entry(out, "use_field_init_shorthand", vs);
        proof {
            lemma_entry_shape(before, "use_field_init_shorthand"@, " = "@, vs@, "\n"@);
        }
    }
    proof {
        let e = opt_entry(*c, Field::UseFieldInitShorthand);
        if is_set(*c, Field::UseFieldInitShorthand) {
            assert(out@ == before + e);
        } else {
            lemma_add_empty(acc);
        }
        lemma_add_assoc(base, acc, e);
        acc = acc + e;
        assert(out@ == base + acc);
    }
    let ghost before = out@;
    if let Some(v) = c.force_explicit_abi {
        let vs = bool_str(v);
        push_entry(out, "force_explicit_abi", vs);
        proof {
            lemma_entry_shape(before, "force_explicit_abi"@, " = "@, vs@, "\n"@);
        }
    }
    proof {
        let e = opt_entry(*c, Field::ForceExplicitAbi);
        if is_set(*c, Field::ForceExplicitAbi) {
            assert(out@ == before + e);
        } else {
            lemma_add_empty(acc);
        }
        lemma_add_assoc(base, acc, e);
        acc = acc + e;
        assert(out@ == base + acc);
    }
    let ghost before = out@;
    if let Some(v) = c.condense_wildcard_suffixes {
        let vs = bool_str(v);
        push_entry(out, "condense_wildcard_suffixes", vs);
        proof {
            lemma_entry_shape(before, "condense_wildcard_suffixes"@, " = "@, vs@, "\n"@);
        }
    }
    proof {
        let e = opt_entry(*c, Field::CondenseWildcardSuffixes);
        if is_set(*c, Field::CondenseWildcardSuffixes) {
            assert(out@ == before + e);
        } else {
            lemma_add_empty(acc);
        }
        lemma_add_assoc(base, acc, e);
        acc = acc + e;
        assert(out@ == base + acc);
    }
    proof {
        lemma_empty_add(opt_entry(*c, Field::MergeDerives));
        assert(acc == serial_linty(*c));
    }
}

/// Serializes the configuration: one `key = value` line per set field, in
/// declaration order; unset fields produce no output at all.
pub fn serialize(c: &Config) -> (r: String)
    ensures
        r@ == serial(*c),
{
    let mut out = String::new();
    write_fundamental(&mut out, c);
    proof {
        lemma_empty_add(serial_fundamental(*c));
    }
    write_heuristics(&mut out, c);
    write_comment_wrapping(&mut out, c);
    write_comment_normalizing(&mut out, c);
    write_single_line(&mut out, c);
    write_imports(&mut out, c);
    write_ordering(&mut out, c);
    write_spaces(&mut out, c);
    write_expressions(&mut out, c);
    write_items(&mut out, c);
    write_control_flow(&mut out, c);
    write_layout(&mut out, c);
    write_linty(&mut out, c);
    out
}

/// Comma-joined text: the pieces in order, separated by a comma and space.
pub open spec fn comma_join(l: Seq<Seq<char>>) -> Seq<char>
    decreases l.len(),
{
    if l.len() == 0 {
        Seq::empty()
    } else if l.len() == 1 {
        l[0]
    } else {
        comma_join(l.drop_last()) + ", "@ + l.last()
    }
}

/// What the named field contributes to the list of set unstable options.
pub open spec fn opt_name(c: Config, f: Field) -> Seq<Seq<char>> {
    if is_set(c, f) {
        seq![key_of(f)]
    } else {
        Seq::empty()
    }
}

/// One run of the unstable fields, in declaration order.
pub open spec fn unstable_names_1(c: Config) -> Seq<Seq<char>> {
    opt_name(c, Field::IndentStyle)
        + opt_name(c, Field::WrapComments)
        + opt_name(c, Field::FormatCodeInDocComments)
        + opt_name(c, Field::DocCommentCodeBlockWidth)
        + opt_name(c, Field::CommentWidth)
        + opt_name(c, Field::NormalizeComments)
        + opt_name(c, Field::NormalizeDocAttributes)
}

/// One run of the unstable fields, in declaration order.
pub open spec fn unstable_names_2(c: Config) -> Seq<Seq<char>> {
    opt_name(c, Field::FormatStrings)
        + opt_name(c, Field::FormatMacroMatchers)
        + opt_name(c, Field::FormatMacroBodies)
        + opt_name(c, Field::HexLiteralCase)
        + opt_name(c, Field::EmptyItemSingleLine)
        + opt_name(c, Field::StructLitSingleLine)
        + opt_name(c, Field::FnSingleLine)
}

/// One run of the unstable fields, in declaration order.
pub open spec fn unstable_names_3(c: Config) -> Seq<Seq<char>> {
    opt_name(c, Field::WhereSingleLine)
        + opt_name(c, Field::ImportsIndent)
        + opt_name(c, Field::ImportsLayout)
        + opt_name(c, Field::ImportsGranularity)
        + opt_name(c, Field::GroupImports)
        + opt_name(c, Field::MergeImports)
        + opt_name(c, Field::ReorderImplItems)
}

/// One run of the unstable fields, in declaration order.
pub open spec fn unstable_names_4(c: Config) -> Seq<Seq<char>> {
    opt_name(c, Field::TypePunctuationDensity)
        + opt_name(c, Field::SpaceBeforeColon)
        + opt_name(c, Field::SpaceAfterColon)
        + opt_name(c, Field::SpacesAroundRanges)
        + opt_name(c, Field::BinopSeparator)
        + opt_name(c, Field::CombineControlExpr)
        + opt_name(c, Field::OverflowDelimitedExpr)
}

/// One run of the unstable fields, in declaration order.
pub open spec fn unstable_names_5(c: Config) -> Seq<Seq<char>> {
    opt_name(c, Field::StructFieldAlignThreshold)
        + opt_name(c, Field::EnumDiscrimAlignThreshold)
        + opt_name(c, Field::MatchArmBlocks)
        + opt_name(c, Field::ForceMultilineBlocks)
        + opt_name(c, Field::BraceStyle)
        + opt_name(c, Field::ControlBraceStyle)
        + opt_name(c, Field::TrailingSemicolon)
}

/// One run of the unstable fields, in declaration order.
pub open spec fn unstable_names_6(c: Config) -> Seq<Seq<char>> {
    opt_name(c, Field::TrailingComma)
        + opt_name(c, Field::BlankLinesUpperBound)
        + opt_name(c, Field::BlankLinesLowerBound)
        + opt_name(c, Field::Version)
        + opt_name(c, Field::InlineAttributeWidth)
        + opt_name(c, Field::FormatGeneratedFiles)
        + opt_name(c, Field::CondenseWildcardSuffixes)
}

/// The names of the unstable fields that are set, in declaration order.
pub open spec fn unstable_names(c: Config) -> Seq<Seq<char>> {
    unstable_names_1(c) + unstable_names_2(c) + unstable_names_3(c) + unstable_names_4(c) + unstable_names_5(c) + unstable_names_6(c)
}

#[verifier::rlimit(100)]
fn push_unstable_1(
    out: &mut String,
    first_in: bool,
    c: &Config,
    Ghost(ns0): Ghost<Seq<Seq<char>>>,
) -> (r: (bool, Ghost<Seq<Seq<char>>>))
    requires
        old(out)@ == comma_join(ns0),
        first_in == (ns0.len() == 0),
    ensures
        r.1@ == ns0 + unstable_names_1(*c),
        final(out)@ == comma_join(r.1@),
        r.0 == (r.1@.len() == 0),
{
    let mut first = first_in;
    let ghost mut ns = ns0;
    if c.indent_style.is_some() {
        if !first {
            out.append(", ");
        }
        out.append("indent_style");
        first = false;
    }
    proof {
        let t = opt_name(*c, Field::IndentStyle);
        if is_set(*c, Field::IndentStyle) {
            lemma_snoc(ns, key_of(Field::IndentStyle));
            if ns.len() == 0 {
                lemma_len0_add(ns, t);
                lemma_empty_add("indent_style"@);
            }
        } else {
            lemma_add_empty(ns);
        }
        ns = ns + t;
        assert(out@ == comma_join(ns));
        assert(first == (ns.len() == 0));
    }
    if c.wrap_comments.is_some() {
        if !first {
            out.append(", ");
        }
        out.append("wrap_comments");
        first = false;
    }
    proof {
        let t = opt_name(*c, Field::WrapComments);
        if is_set(*c, Field::WrapComments) {
            lemma_snoc(ns, key_of(Field::WrapComments));
            if ns.len() == 0 {
                lemma_len0_add(ns, t);
                lemma_empty_add("wrap_comments"@);
            }
        } else {
            lemma_add_empty(ns);
        }
        ns = ns + t;
        assert(out@ == comma_join(ns));
        assert(first == (ns.len() == 0));
    }
    if c.format_code_in_doc_comments.is_some() {
        if !first {
            out.append(", ");
        }
        out.append("format_code_in_doc_comments");
        first = false;
    }
    proof {
        let t = opt_name(*c, Field::FormatCodeInDocComments);
        if is_set(*c, Field::FormatCodeInDocComments) {
            lemma_snoc(ns, key_of(Field::FormatCodeInDocComments));
            if ns.len() == 0 {
                lemma_len0_add(ns, t);
                lemma_empty_add("format_code_in_doc_comments"@);
            }
        } else {
            lemma_add_empty(ns);
        }
        ns = ns + t;
        assert(out@ == comma_join(ns));
        assert(first == (ns.len() == 0));
    }
    if c.doc_comment_code_block_width.is_some() {
        if !first {
            out.append(", ");
        }
        out.append("doc_comment_code_block_width");
        first = false;
    }
    proof {
        let t = opt_name(*c, Field::DocCommentCodeBlockWidth);
        if is_set(*c, Field::DocCommentCodeBlockWidth) {
            lemma_snoc(ns, key_of(Field::DocCommentCodeBlockWidth));
            if ns.len() == 0 {
                lemma_len0_add(ns, t);
                lemma_empty_add("doc_comment_code_block_width"@);
            }
        } else {
            lemma_add_empty(ns);
        }
        ns = ns + t;
        assert(out@ == comma_join(ns));
        assert(first == (ns.len() == 0));
    }
    if c.comment_width.is_some() {
        if !first {
            out.append(", ");
        }
        out.append("comment_width");
        first = false;
    }
    proof {
        let t = opt_name(*c, Field::CommentWidth);
        if is_set(*c, Field::CommentWidth) {
            lemma_snoc(ns, key_of(Field::CommentWidth));
            if ns.len() == 0 {
                lemma_len0_add(ns, t);
                lemma_empty_add("comment_width"@);
            }
        } else {
            lemma_add_empty(ns);
        }
        ns = ns + t;
        assert(out@ == comma_join(ns));
        assert(first == (ns.len() == 0));
    }
    if c.normalize_comments.is_some() {
        if !first {
            out.append(", ");
        }
        out.append("normalize_comments");
        first = false;
    }
    proof {
        let t = opt_name(*c, Field::NormalizeComments);
        if is_set(*c, Field::NormalizeComments) {
            lemma_snoc(ns, key_of(Field::NormalizeComments));
            if ns.len() == 0 {
                lemma_len0_add(ns, t);
                lemma_empty_add("normalize_comments"@);
            }
        } else {
            lemma_add_empty(ns);
        }
        ns = ns + t;
        assert(out@ == comma_join(ns));
        assert(first == (ns.len() == 0));
    }
    if c.normalize_doc_attributes.is_some() {
        if !first {
            out.append(", ");
        }
        out.append("normalize_doc_attributes");
        first = false;
    }
    proof {
        let t = opt_name(*c, Field::NormalizeDocAttributes);
        if is_set(*c, Field::NormalizeDocAttributes) {
            lemma_snoc(ns, key_of(Field::NormalizeDocAttributes));
            if ns.len() == 0 {
                lemma_len0_add(ns, t);
                lemma_empty_add("normalize_doc_attributes"@);
            }
        } else {
            lemma_add_empty(ns);
        }
        ns = ns + t;
        assert(out@ == comma_join(ns));
        assert(first == (ns.len() == 0));
    }
    proof {
        lemma_add_assoc(ns0, opt_name(*c, Field::IndentStyle), opt_name(*c, Field::WrapComments));
        lemma_add_assoc(ns0, opt_name(*c, Field::IndentStyle) + opt_name(*c, Field::WrapComments), opt_name(*c, Field::FormatCodeInDocComments));
        lemma_add_assoc(ns0, opt_name(*c, Field::IndentStyle) + opt_name(*c, Field::WrapComments) + opt_name(*c, Field::FormatCodeInDocComments), opt_name(*c, Field::DocCommentCodeBlockWidth));
        lemma_add_assoc(ns0, opt_name(*c, Field::IndentStyle) + opt_name(*c, Field::WrapComments) + opt_name(*c, Field::FormatCodeInDocComments) + opt_name(*c, Field::DocCommentCodeBlockWidth), opt_name(*c, Field::CommentWidth));
        lemma_add_assoc(ns0, opt_name(*c, Field::IndentStyle) + opt_name(*c, Field::WrapComments) + opt_name(*c, Field::FormatCodeInDocComments) + opt_name(*c, Field::DocCommentCodeBlockWidth) + opt_name(*c, Field::CommentWidth), opt_name(*c, Field::NormalizeComments));
        lemma_add_assoc(ns0, opt_name(*c, Field::IndentStyle) + opt_name(*c, Field::WrapComments) + opt_name(*c, Field::FormatCodeInDocComments) + opt_name(*c, Field::DocCommentCodeBlockWidth) + opt_name(*c, Field::CommentWidth) + opt_name(*c, Field::NormalizeComments), opt_name(*c, Field::NormalizeDocAttributes));
        assert(ns == ns0 + unstable_names_1(*c));
    }
    (first, Ghost(ns))
}

#[verifier::rlimit(100)]
fn push_unstable_2(
    out: &mut String,
    first_in: bool,
    c: &Config,
    Ghost(ns0): Ghost<Seq<Seq<char>>>,
) -> (r: (bool, Ghost<Seq<Seq<char>>>))
    requires
        old(out)@ == comma_join(ns0),
        first_in == (ns0.len() == 0),
    ensures
        r.1@ == ns0 + unstable_names_2(*c),
        final(out)@ == comma_join(r.1@),
        r.0 == (r.1@.len() == 0),
{
    let mut first = first_in;
    let ghost mut ns = ns0;
    if c.format_strings.is_some() {
        if !first {
            out.append(", ");
        }
        out.append("format_strings");
        first = false;
    }
    proof {
        let t = opt_name(*c, Field::FormatStrings);
        if is_set(*c, Field::FormatStrings) {
            lemma_snoc(ns, key_of(Field::FormatStrings));
            if ns.len() == 0 {
                lemma_len0_add(ns, t);
                lemma_empty_add("format_strings"@);
            }
        } else {
            lemma_add_empty(ns);
        }
        ns = ns + t;
        assert(out@ == comma_join(ns));
        assert(first == (ns.len() == 0));
    }
    if c.format_macro_matchers.is_some() {
        if !first {
            out.append(", ");
        }
        out.append("format_macro_matchers");
        first = false;
    }
    proof {
        let t = opt_name(*c, Field::FormatMacroMatchers);
        if is_set(*c, Field::FormatMacroMatchers) {
            lemma_snoc(ns, key_of(Field::FormatMacroMatchers));
            if ns.len() == 0 {
                lemma_len0_add(ns, t);
                lemma_empty_add("format_macro_matchers"@);
            }
        } else {
            lemma_add_empty(ns);
        }
        ns = ns + t;
        assert(out@ == comma_join(ns));
        assert(first == (ns.len() == 0));
    }
    if c.format_macro_bodies.is_some() {
        if !first {
            out.append(", ");
        }
        out.append("format_macro_bodies");
        first = false;
    }
    proof {
        let t = opt_name(*c, Field::FormatMacroBodies);
        if is_set(*c, Field::FormatMacroBodies) {
            lemma_snoc(ns, key_of(Field::FormatMacroBodies));
            if ns.len() == 0 {
                lemma_len0_add(ns, t);
                lemma_empty_add("format_macro_bodies"@);
            }
        } else {
            lemma_add_empty(ns);
        }
        ns = ns + t;
        assert(out@ == comma_join(ns));
        assert(first == (ns.len() == 0));
    }
    if c.hex_literal_case.is_some() {
        if !first {
            out.append(", ");
        }
        out.append("hex_literal_case");
        first = false;
    }
    proof {
        let t = opt_name(*c, Field::HexLiteralCase);
        if is_set(*c, Field::HexLiteralCase) {
            lemma_snoc(ns, key_of(Field::HexLiteralCase));
            if ns.len() == 0 {
                lemma_len0_add(ns, t);
                lemma_empty_add("hex_literal_case"@);
            }
        } else {
            lemma_add_empty(ns);
        }
        ns = ns + t;
        assert(out@ == comma_join(ns));
        assert(first == (ns.len() == 0));
    }
    if c.empty_item_single_line.is_some() {
        if !first {
            out.append(", ");
        }
        out.append("empty_item_single_line");
        first = false;
    }
    proof {
        let t = opt_name(*c, Field::EmptyItemSingleLine);
        if is_set(*c, Field::EmptyItemSingleLine) {
            lemma_snoc(ns, key_of(Field::EmptyItemSingleLine));
            if ns.len() == 0 {
                lemma_len0_add(ns, t);
                lemma_empty_add("empty_item_single_line"@);
            }
        } else {
            lemma_add_empty(ns);
        }
        ns = ns + t;
        assert(out@ == comma_join(ns));
        assert(first == (ns.len() == 0));
    }
    if c.struct_lit_single_line.is_some() {
        if !first {
            out.append(", ");
        }
        out.append("struct_lit_single_line");
        first = false;
    }
    proof {
        let t = opt_name(*c, Field::StructLitSingleLine);
        if is_set(*c, Field::StructLitSingleLine) {
            lemma_snoc(ns, key_of(Field::StructLitSingleLine));
            if ns.len() == 0 {
                lemma_len0_add(ns, t);
                lemma_empty_add("struct_lit_single_line"@);
            }
        } else {
            lemma_add_empty(ns);
        }
        ns = ns + t;
        assert(out@ == comma_join(ns));
        assert(first == (ns.len() == 0));
    }
    if c.fn_single_line.is_some() {
        if !first {
            out.append(", ");
        }
        out.append("fn_single_line");
        first = false;
    }
    proof {
        let t = opt_name(*c, Field::FnSingleLine);
        if is_set(*c, Field::FnSingleLine) {
            lemma_snoc(ns, key_of(Field::FnSingleLine));
            if ns.len() == 0 {
                lemma_len0_add(ns, t);
                lemma_empty_add("fn_single_line"@);
            }
        } else {
            lemma_add_empty(ns);
        }
        ns = ns + t;
        assert(out@ == comma_join(ns));
        assert(first == (ns.len() == 0));
    }
    proof {
        lemma_add_assoc(ns0, opt_name(*c, Field::FormatStrings), opt_name(*c, Field::FormatMacroMatchers));
        lemma_add_assoc(ns0, opt_name(*c, Field::FormatStrings) + opt_name(*c, Field::FormatMacroMatchers), opt_name(*c, Field::FormatMacroBodies));
        lemma_add_assoc(ns0, opt_name(*c, Field::FormatStrings) + opt_name(*c, Field::FormatMacroMatchers) + opt_name(*c, Field::FormatMacroBodies), opt_name(*c, Field::HexLiteralCase));
        lemma_add_assoc(ns0, opt_name(*c, Field::FormatStrings) + opt_name(*c, Field::FormatMacroMatchers) + opt_name(*c, Field::FormatMacroBodies) + opt_name(*c, Field::HexLiteralCase), opt_name(*c, Field::EmptyItemSingleLine));
        lemma_add_assoc(ns0, opt_name(*c, Field::FormatStrings) + opt_name(*c, Field::FormatMacroMatchers) + opt_name(*c, Field::FormatMacroBodies) + opt_name(*c, Field::HexLiteralCase) + opt_name(*c, Field::EmptyItemSingleLine), opt_name(*c, Field::StructLitSingleLine));
        lemma_add_assoc(ns0, opt_name(*c, Field::FormatStrings) + opt_name(*c, Field::FormatMacroMatchers) + opt_name(*c, Field::FormatMacroBodies) + opt_name(*c, Field::HexLiteralCase) + opt_name(*c, Field::EmptyItemSingleLine) + opt_name(*c, Field::StructLitSingleLine), opt_name(*c, Field::FnSingleLine));
        assert(ns == ns0 + unstable_names_2(*c));
    }
    (first, Ghost(ns))
}

#[verifier::rlimit(100)]
fn push_unstable_3(
    out: &mut String,
    first_in: bool,
    c: &Config,
    Ghost(ns0): Ghost<Seq<Seq<char>>>,
) -> (r: (bool, Ghost<Seq<Seq<char>>>))
    requires
        old(out)@ == comma_join(ns0),
        first_in == (ns0.len() == 0),
    ensures
        r.1@ == ns0 + unstable_names_3(*c),
        final(out)@ == comma_join(r.1@),
        r.0 == (r.1@.len() == 0),
{
    let mut first = first_in;
    let ghost mut ns = ns0;
    if c.where_single_line.is_some() {
        if !first {
            out.append(", ");
        }
        out.append("where_single_line");
        first = false;
    }
    proof {
        let t = opt_name(*c, Field::WhereSingleLine);
        if is_set(*c, Field::WhereSingleLine) {
            lemma_snoc(ns, key_of(Field::WhereSingleLine));
            if ns.len() == 0 {
                lemma_len0_add(ns, t);
                lemma_empty_add("where_single_line"@);
            }
        } else {
            lemma_add_empty(ns);
        }
        ns = ns + t;
        assert(out@ == comma_join(ns));
        assert(first == (ns.len() == 0));
    }
    if c.imports_indent.is_some() {
        if !first {
            out.append(", ");
        }
        out.append("imports_indent");
        first = false;
    }
    proof {
        let t = opt_name(*c, Field::ImportsIndent);
        if is_set(*c, Field::ImportsIndent) {
            lemma_snoc(ns, key_of(Field::ImportsIndent));
            if ns.len() == 0 {
                lemma_len0_add(ns, t);
                lemma_empty_add("imports_indent"@);
            }
        } else {
            lemma_add_empty(ns);
        }
        ns = ns + t;
        assert(out@ == comma_join(ns));
        assert(first == (ns.len() == 0));
    }
    if c.imports_layout.is_some() {
        if !first {
            out.append(", ");
        }
        out.append("imports_layout");
        first = false;
    }
    proof {
        let t = opt_name(*c, Field::ImportsLayout);
        if is_set(*c, Field::ImportsLayout) {
            lemma_snoc(ns, key_of(Field::ImportsLayout));
            if ns.len() == 0 {
                lemma_len0_add(ns, t);
                lemma_empty_add("imports_layout"@);
            }
        } else {
            lemma_add_empty(ns);
        }
        ns = ns + t;
        assert(out@ == comma_join(ns));
        assert(first == (ns.len() == 0));
    }
    if c.imports_granularity.is_some() {
        if !first {
            out.append(", ");
        }
        out.append("imports_granularity");
        first = false;
    }
    proof {
        let t = opt_name(*c, Field::ImportsGranularity);
        if is_set(*c, Field::ImportsGranularity) {
            lemma_snoc(ns, key_of(Field::ImportsGranularity));
            if ns.len() == 0 {
                lemma_len0_add(ns, t);
                lemma_empty_add("imports_granularity"@);
            }
        } else {
            lemma_add_empty(ns);
        }
        ns = ns + t;
        assert(out@ == comma_join(ns));
        assert(first == (ns.len() == 0));
    }
    if c.group_imports.is_some() {
        if !first {
            out.append(", ");
        }
        out.append("group_imports");
        first = false;
    }
    proof {
        let t = opt_name(*c, Field::GroupImports);
        if is_set(*c, Field::GroupImports) {
            lemma_snoc(ns, key_of(Field::GroupImports));
            if ns.len() == 0 {
                lemma_len0_add(ns, t);
                lemma_empty_add("group_imports"@);
            }
        } else {
            lemma_add_empty(ns);
        }
        ns = ns + t;
        assert(out@ == comma_join(ns));
        assert(first == (ns.len() == 0));
    }
    if c.merge_imports.is_some() {
        if !first {
            out.append(", ");
        }
        out.append("merge_imports");
        first = false;
    }
    proof {
        let t = opt_name(*c, Field::MergeImports);
        if is_set(*c, Field::MergeImports) {
            lemma_snoc(ns, key_of(Field::MergeImports));
            if ns.len() == 0 {
                lemma_len0_add(ns, t);
                lemma_empty_add("merge_imports"@);
            }
        } else {
            lemma_add_empty(ns);
        }
        ns = ns + t;
        assert(out@ == comma_join(ns));
        assert(first == (ns.len() == 0));
    }
    if c.reorder_impl_items.is_some() {
        if !first {
            out.append(", ");
        }
        out.append("reorder_impl_items");
        first = false;
    }
    proof {
        let t = opt_name(*c, Field::ReorderImplItems);
        if is_set(*c, Field::ReorderImplItems) {
            lemma_snoc(ns, key_of(Field::ReorderImplItems));
            if ns.len() == 0 {
                lemma_len0_add(ns, t);
                lemma_empty_add("reorder_impl_items"@);
            }
        } else {
            lemma_add_empty(ns);
        }
        ns = ns + t;
        assert(out@ == comma_join(ns));
        assert(first == (ns.len() == 0));
    }
    proof {
        lemma_add_assoc(ns0, opt_name(*c, Field::WhereSingleLine), opt_name(*c, Field::ImportsIndent));
        lemma_add_assoc(ns0, opt_name(*c, Field::WhereSingleLine) + opt_name(*c, Field::ImportsIndent), opt_name(*c, Field::ImportsLayout));
        lemma_add_assoc(ns0, opt_name(*c, Field::WhereSingleLine) + opt_name(*c, Field::ImportsIndent) + opt_name(*c, Field::ImportsLayout), opt_name(*c, Field::ImportsGranularity));
        lemma_add_assoc(ns0, opt_name(*c, Field::WhereSingleLine) + opt_name(*c, Field::ImportsIndent) + opt_name(*c, Field::ImportsLayout) + opt_name(*c, Field::ImportsGranularity), opt_name(*c, Field::GroupImports));
        lemma_add_assoc(ns0, opt_name(*c, Field::WhereSingleLine) + opt_name(*c, Field::ImportsIndent) + opt_name(*c, Field::ImportsLayout) + opt_name(*c, Field::ImportsGranularity) + opt_name(*c, Field::GroupImports), opt_name(*c, Field::MergeImports));
        lemma_add_assoc(ns0, opt_name(*c, Field::WhereSingleLine) + opt_name(*c, Field::ImportsIndent) + opt_name(*c, Field::ImportsLayout) + opt_name(*c, Field::ImportsGranularity) + opt_name(*c, Field::GroupImports) + opt_name(*c, Field::MergeImports), opt_name(*c, Field::ReorderImplItems));
        assert(ns == ns0 + unstable_names_3(*c));
    }
    (first, Ghost(ns))
}

#[verifier::rlimit(100)]
fn push_unstable_4(
    out: &mut String,
    first_in: bool,
    c: &Config,
    Ghost(ns0): Ghost<Seq<Seq<char>>>,
) -> (r: (bool, Ghost<Seq<Seq<char>>>))
    requires
        old(out)@ == comma_join(ns0),
        first_in == (ns0.len() == 0),
    ensures
        r.1@ == ns0 + unstable_names_4(*c),
        final(out)@ == comma_join(r.1@),
        r.0 == (r.1@.len() == 0),
{
    let mut first = first_in;
    let ghost mut ns = ns0;
    if c.type_punctuation_density.is_some() {
        if !first {
            out.append(", ");
        }
        out.append("type_punctuation_density");
        first = false;
    }
    proof {
        let t = opt_name(*c, Field::TypePunctuationDensity);
        if is_set(*c, Field::TypePunctuationDensity) {
            lemma_snoc(ns, key_of(Field::TypePunctuationDensity));
            if ns.len() == 0 {
                lemma_len0_add(ns, t);
                lemma_empty_add("type_punctuation_density"@);
            }
        } else {
            lemma_add_empty(ns);
        }
        ns = ns + t;
        assert(out@ == comma_join(ns));
        assert(first == (ns.len() == 0));
    }
    if c.space_before_colon.is_some() {
        if !first {
            out.append(", ");
        }
        out.append("space_before_colon");
        first = false;
    }
    proof {
        let t = opt_name(*c, Field::SpaceBeforeColon);
        if is_set(*c, Field::SpaceBeforeColon) {
            lemma_snoc(ns, key_of(Field::SpaceBeforeColon));
            if ns.len() == 0 {
                lemma_len0_add(ns, t);
                lemma_empty_add("space_before_colon"@);
            }
        } else {
            lemma_add_empty(ns);
        }
        ns = ns + t;
        assert(out@ == comma_join(ns));
        assert(first == (ns.len() == 0));
    }
    if c.space_after_colon.is_some() {
        if !first {
            out.append(", ");
        }
        out.append("space_after_colon");
        first = false;
    }
    proof {
        let t = opt_name(*c, Field::SpaceAfterColon);
        if is_set(*c, Field::SpaceAfterColon) {
            lemma_snoc(ns, key_of(Field::SpaceAfterColon));
            if ns.len() == 0 {
                lemma_len0_add(ns, t);
                lemma_empty_add("space_after_colon"@);
            }
        } else {
            lemma_add_empty(ns);
        }
        ns = ns + t;
        assert(out@ == comma_join(ns));
        assert(first == (ns.len() == 0));
    }
    if c.spaces_around_ranges.is_some() {
        if !first {
            out.append(", ");
        }
        out.append("spaces_around_ranges");
        first = false;
    }
    proof {
        let t = opt_name(*c, Field::SpacesAroundRanges);
        if is_set(*c, Field::SpacesAroundRanges) {
            lemma_snoc(ns, key_of(Field::SpacesAroundRanges));
            if ns.len() == 0 {
                lemma_len0_add(ns, t);
                lemma_empty_add("spaces_around_ranges"@);
            }
        } else {
            lemma_add_empty(ns);
        }
        ns = ns + t;
        assert(out@ == comma_join(ns));
        assert(first == (ns.len() == 0));
    }
    if c.binop_separator.is_some() {
        if !first {
            out.append(", ");
        }
        out.append("binop_separator");
        first = false;
    }
    proof {
        let t = opt_name(*c, Field::BinopSeparator);
        if is_set(*c, Field::BinopSeparator) {
            lemma_snoc(ns, key_of(Field::BinopSeparator));
            if ns.len() == 0 {
                lemma_len0_add(ns, t);
                lemma_empty_add("binop_separator"@);
            }
        } else {
            lemma_add_empty(ns);
        }
        ns = ns + t;
        assert(out@ == comma_join(ns));
        assert(first == (ns.len() == 0));
    }
    if c.combine_control_expr.is_some() {
        if !first {
            out.append(", ");
        }
        out.append("combine_control_expr");
        first = false;
    }
    proof {
        let t = opt_name(*c, Field::CombineControlExpr);
        if is_set(*c, Field::CombineControlExpr) {
            lemma_snoc(ns, key_of(Field::CombineControlExpr));
            if ns.len() == 0 {
                lemma_len0_add(ns, t);
                lemma_empty_add("combine_control_expr"@);
            }
        } else {
            lemma_add_empty(ns);
        }
        ns = ns + t;
        assert(out@ == comma_join(ns));
        assert(first == (ns.len() == 0));
    }
    if c.overflow_delimited_expr.is_some() {
        if !first {
            out.append(", ");
        }
        out.append("overflow_delimited_expr");
        first = false;
    }
    proof {
        let t = opt_name(*c, Field::OverflowDelimitedExpr);
        if is_set(*c, Field::OverflowDelimitedExpr) {
            lemma_snoc(ns, key_of(Field::OverflowDelimitedExpr));
            if ns.len() == 0 {
                lemma_len0_add(ns, t);
                lemma_empty_add("overflow_delimited_expr"@);
            }
        } else {
            lemma_add_empty(ns);
        }
        ns = ns + t;
        assert(out@ == comma_join(ns));
        assert(first == (ns.len() == 0));
    }
    proof {
        lemma_add_assoc(ns0, opt_name(*c, Field::TypePunctuationDensity), opt_name(*c, Field::SpaceBeforeColon));
        lemma_add_assoc(ns0, opt_name(*c, Field::TypePunctuationDensity) + opt_name(*c, Field::SpaceBeforeColon), opt_name(*c, Field::SpaceAfterColon));
        lemma_add_assoc(ns0, opt_name(*c, Field::TypePunctuationDensity) + opt_name(*c, Field::SpaceBeforeColon) + opt_name(*c, Field::SpaceAfterColon), opt_name(*c, Field::SpacesAroundRanges));
        lemma_add_assoc(ns0, opt_name(*c, Field::TypePunctuationDensity) + opt_name(*c, Field::SpaceBeforeColon) + opt_name(*c, Field::SpaceAfterColon) + opt_name(*c, Field::SpacesAroundRanges), opt_name(*c, Field::BinopSeparator));
        lemma_add_assoc(ns0, opt_name(*c, Field::TypePunctuationDensity) + opt_name(*c, Field::SpaceBeforeColon) + opt_name(*c, Field::SpaceAfterColon) + opt_name(*c, Field::SpacesAroundRanges) + opt_name(*c, Field::BinopSeparator), opt_name(*c, Field::CombineControlExpr));
        lemma_add_assoc(ns0, opt_name(*c, Field::TypePunctuationDensity) + opt_name(*c, Field::SpaceBeforeColon) + opt_name(*c, Field::SpaceAfterColon) + opt_name(*c, Field::SpacesAroundRanges) + opt_name(*c, Field::BinopSeparator) + opt_name(*c, Field::CombineControlExpr), opt_name(*c, Field::OverflowDelimitedExpr));
        assert(ns == ns0 + unstable_names_4(*c));
    }
    (first, Ghost(ns))
}

#[verifier::rlimit(100)]
fn push_unstable_5(
    out: &mut String,
    first_in: bool,
    c: &Config,
    Ghost(ns0): Ghost<Seq<Seq<char>>>,
) -> (r: (bool, Ghost<Seq<Seq<char>>>))
    requires
        old(out)@ == comma_join(ns0),
        first_in == (ns0.len() == 0),
    ensures
        r.1@ == ns0 + unstable_names_5(*c),
        final(out)@ == comma_join(r.1@),
        r.0 == (r.1@.len() == 0),
{
    let mut first = first_in;
    let ghost mut ns = ns0;
    if c.struct_field_align_threshold.is_some() {
        if !first {
            out.append(", ");
        }
        out.append("struct_field_align_threshold");
        first = false;
    }
    proof {
        let t = opt_name(*c, Field::StructFieldAlignThreshold);
        if is_set(*c, Field::StructFieldAlignThreshold) {
            lemma_snoc(ns, key_of(Field::StructFieldAlignThreshold));
            if ns.len() == 0 {
                lemma_len0_add(ns, t);
                lemma_empty_add("struct_field_align_threshold"@);
            }
        } else {
            lemma_add_empty(ns);
        }
        ns = ns + t;
        assert(out@ == comma_join(ns));
        assert(first == (ns.len() == 0));
    }
    if c.enum_discrim_align_threshold.is_some() {
        if !first {
            out.append(", ");
        }
        out.append("enum_discrim_align_threshold");
        first = false;
    }
    proof {
        let t = opt_name(*c, Field::EnumDiscrimAlignThreshold);
        if is_set(*c, Field::EnumDiscrimAlignThreshold) {
            lemma_snoc(ns, key_of(Field::EnumDiscrimAlignThreshold));
            if ns.len() == 0 {
                lemma_len0_add(ns, t);
                lemma_empty_add("enum_discrim_align_threshold"@);
            }
        } else {
            lemma_add_empty(ns);
        }
        ns = ns + t;
        assert(out@ == comma_join(ns));
        assert(first == (ns.len() == 0));
    }
    if c.match_arm_blocks.is_some() {
        if !first {
            out.append(", ");
        }
        out.append("match_arm_blocks");
        first = false;
    }
    proof {
        let t = opt_name(*c, Field::MatchArmBlocks);
        if is_set(*c, Field::MatchArmBlocks) {
            lemma_snoc(ns, key_of(Field::MatchArmBlocks));
            if ns.len() == 0 {
                lemma_len0_add(ns, t);
                lemma_empty_add("match_arm_blocks"@);
            }
        } else {
            lemma_add_empty(ns);
        }
        ns = ns + t;
        assert(out@ == comma_join(ns));
        assert(first == (ns.len() == 0));
    }
    if c.force_multiline_blocks.is_some() {
        if !first {
            out.append(", ");
        }
        out.append("force_multiline_blocks");
        first = false;
    }
    proof {
        let t = opt_name(*c, Field::ForceMultilineBlocks);
        if is_set(*c, Field::ForceMultilineBlocks) {
            lemma_snoc(ns, key_of(Field::ForceMultilineBlocks));
            if ns.len() == 0 {
                lemma_len0_add(ns, t);
                lemma_empty_add("force_multiline_blocks"@);
            }
        } else {
            lemma_add_empty(ns);
        }
        ns = ns + t;
        assert(out@ == comma_join(ns));
        assert(first == (ns.len() == 0));
    }
    if c.brace_style.is_some() {
        if !first {
            out.append(", ");
        }
        out.append("brace_style");
        first = false;
    }
    proof {
        let t = opt_name(*c, Field::BraceStyle);
        if is_set(*c, Field::BraceStyle) {
            lemma_snoc(ns, key_of(Field::BraceStyle));
            if ns.len() == 0 {
                lemma_len0_add(ns, t);
                lemma_empty_add("brace_style"@);
            }
        } else {
            lemma_add_empty(ns);
        }
        ns = ns + t;
        assert(out@ == comma_join(ns));
        assert(first == (ns.len() == 0));
    }
    if c.control_brace_style.is_some() {
        if !first {
            out.append(", ");
        }
        out.append("control_brace_style");
        first = false;
    }
    proof {
        let t = opt_name(*c, Field::ControlBraceStyle);
        if is_set(*c, Field::ControlBraceStyle) {
            lemma_snoc(ns, key_of(Field::ControlBraceStyle));
            if ns.len() == 0 {
                lemma_len0_add(ns, t);
                lemma_empty_add("control_brace_style"@);
            }
        } else {
            lemma_add_empty(ns);
        }
        ns = ns + t;
        assert(out@ == comma_join(ns));
        assert(first == (ns.len() == 0));
    }
    if c.trailing_semicolon.is_some() {
        if !first {
            out.append(", ");
        }
        out.append("trailing_semicolon");
        first = false;
    }
    proof {
        let t = opt_name(*c, Field::TrailingSemicolon);
        if is_set(*c, Field::TrailingSemicolon) {
            lemma_snoc(ns, key_of(Field::TrailingSemicolon));
            if ns.len() == 0 {
                lemma_len0_add(ns, t);
                lemma_empty_add("trailing_semicolon"@);
            }
        } else {
            lemma_add_empty(ns);
        }
        ns = ns + t;
        assert(out@ == comma_join(ns));
        assert(first == (ns.len() == 0));
    }
    proof {
        lemma_add_assoc(ns0, opt_name(*c, Field::StructFieldAlignThreshold), opt_name(*c, Field::EnumDiscrimAlignThreshold));
        lemma_add_assoc(ns0, opt_name(*c, Field::StructFieldAlignThreshold) + opt_name(*c, Field::EnumDiscrimAlignThreshold), opt_name(*c, Field::MatchArmBlocks));
        lemma_add_assoc(ns0, opt_name(*c, Field::StructFieldAlignThreshold) + opt_name(*c, Field::EnumDiscrimAlignThreshold) + opt_name(*c, Field::MatchArmBlocks), opt_name(*c, Field::ForceMultilineBlocks));
        lemma_add_assoc(ns0, opt_name(*c, Field::StructFieldAlignThreshold) + opt_name(*c, Field::EnumDiscrimAlignThreshold) + opt_name(*c, Field::MatchArmBlocks) + opt_name(*c, Field::ForceMultilineBlocks), opt_name(*c, Field::BraceStyle));
        lemma_add_assoc(ns0, opt_name(*c, Field::StructFieldAlignThreshold) + opt_name(*c, Field::EnumDiscrimAlignThreshold) + opt_name(*c, Field::MatchArmBlocks) + opt_name(*c, Field::ForceMultilineBlocks) + opt_name(*c, Field::BraceStyle), opt_name(*c, Field::ControlBraceStyle));
        lemma_add_assoc(ns0, opt_name(*c, Field::StructFieldAlignThreshold) + opt_name(*c, Field::EnumDiscrimAlignThreshold) + opt_name(*c, Field::MatchArmBlocks) + opt_name(*c, Field::ForceMultilineBlocks) + opt_name(*c, Field::BraceStyle) + opt_name(*c, Field::ControlBraceStyle), opt_name(*c, Field::TrailingSemicolon));
        assert(ns == ns0 + unstable_names_5(*c));
    }
    (first, Ghost(ns))
}

#[verifier::rlimit(100)]
fn push_unstable_6(
    out: &mut String,
    first_in: bool,
    c: &Config,
    Ghost(ns0): Ghost<Seq<Seq<char>>>,
) -> (r: (bool, Ghost<Seq<Seq<char>>>))
    requires
        old(out)@ == comma_join(ns0),
        first_in == (ns0.len() == 0),
    ensures
        r.1@ == ns0 + unstable_names_6(*c),
        final(out)@ == comma_join(r.1@),
        r.0 == (r.1@.len() == 0),
{
    let mut first = first_in;
    let ghost mut ns = ns0;
    if c.trailing_comma.is_some() {
        if !first {
            out.append(", ");
        }
        out.append("trailing_comma");
        first = false;
    }
    proof {
        let t = opt_name(*c, Field::TrailingComma);
        if is_set(*c, Field::TrailingComma) {
            lemma_snoc(ns, key_of(Field::TrailingComma));
            if ns.len() == 0 {
                lemma_len0_add(ns, t);
                lemma_empty_add("trailing_comma"@);
            }
        } else {
            lemma_add_empty(ns);
        }
        ns = ns + t;
        assert(out@ == comma_join(ns));
        assert(first == (ns.len() == 0));
    }
    if c.blank_lines_upper_bound.is_some() {
        if !first {
            out.append(", ");
        }
        out.append("blank_lines_upper_bound");
        first = false;
    }
    proof {
        let t = opt_name(*c, Field::BlankLinesUpperBound);
        if is_set(*c, Field::BlankLinesUpperBound) {
            lemma_snoc(ns, key_of(Field::BlankLinesUpperBound));
            if ns.len() == 0 {
                lemma_len0_add(ns, t);
                lemma_empty_add("blank_lines_upper_bound"@);
            }
        } else {
            lemma_add_empty(ns);
        }
        ns = ns + t;
        assert(out@ == comma_join(ns));
        assert(first == (ns.len() == 0));
    }
    if c.blank_lines_lower_bound.is_some() {
        if !first {
            out.append(", ");
        }
        out.append("blank_lines_lower_bound");
        first = false;
    }
    proof {
        let t = opt_name(*c, Field::BlankLinesLowerBound);
        if is_set(*c, Field::BlankLinesLowerBound) {
            lemma_snoc(ns, key_of(Field::BlankLinesLowerBound));
            if ns.len() == 0 {
                lemma_len0_add(ns, t);
                lemma_empty_add("blank_lines_lower_bound"@);
            }
        } else {
            lemma_add_empty(ns);
        }
        ns = ns + t;
        assert(out@ == comma_join(ns));
        assert(first == (ns.len() == 0));
    }
    if c.version.is_some() {
        if !first {
            out.append(", ");
        }
        out.append("version");
        first = false;
    }
    proof {
        let t = opt_name(*c, Field::Version);
        if is_set(*c, Field::Version) {
            lemma_snoc(ns, key_of(Field::Version));
            if ns.len() == 0 {
                lemma_len0_add(ns, t);
                lemma_empty_add("version"@);
            }
        } else {
            lemma_add_empty(ns);
        }
        ns = ns + t;
        assert(out@ == comma_join(ns));
        assert(first == (ns.len() == 0));
    }
    if c.inline_attribute_width.is_some() {
        if !first {
            out.append(", ");
        }
        out.append("inline_attribute_width");
        first = false;
    }
    proof {
        let t = opt_name(*c, Field::InlineAttributeWidth);
        if is_set(*c, Field::InlineAttributeWidth) {
            lemma_snoc(ns, key_of(Field::InlineAttributeWidth));
            if ns.len() == 0 {
                lemma_len0_add(ns, t);
                lemma_empty_add("inline_attribute_width"@);
            }
        } else {
            lemma_add_empty(ns);
        }
        ns = ns + t;
        assert(out@ == comma_join(ns));
        assert(first == (ns.len() == 0));
    }
    if c.format_generated_files.is_some() {
        if !first {
            out.append(", ");
        }
        out.append("format_generated_files");
        first = false;
    }
    proof {
        let t = opt_name(*c, Field::FormatGeneratedFiles);
        if is_set(*c, Field::FormatGeneratedFiles) {
            lemma_snoc(ns, key_of(Field::FormatGeneratedFiles));
            if ns.len() == 0 {
                lemma_len0_add(ns, t);
                lemma_empty_add("format_generated_files"@);
            }
        } else {
            lemma_add_empty(ns);
        }
        ns = ns + t;
        assert(out@ == comma_join(ns));
        assert(first == (ns.len() == 0));
    }
    if c.condense_wildcard_suffixes.is_some() {
        if !first {
            out.append(", ");
        }
        out.append("condense_wildcard_suffixes");
        first = false;
    }
    proof {
        let t = opt_name(*c, Field::CondenseWildcardSuffixes);
        if is_set(*c, Field::CondenseWildcardSuffixes) {
            lemma_snoc(ns, key_of(Field::CondenseWildcardSuffixes));
            if ns.len() == 0 {
                lemma_len0_add(ns, t);
                lemma_empty_add("condense_wildcard_suffixes"@);
            }
        } else {
            lemma_add_empty(ns);
        }
        ns = ns + t;
        assert(out@ == comma_join(ns));
        assert(first == (ns.len() == 0));
    }
    proof {
        lemma_add_assoc(ns0, opt_name(*c, Field::TrailingComma), opt_name(*c, Field::BlankLinesUpperBound));
        lemma_add_assoc(ns0, opt_name(*c, Field::TrailingComma) + opt_name(*c, Field::BlankLinesUpperBound), opt_name(*c, Field::BlankLinesLowerBound));
        lemma_add_assoc(ns0, opt_name(*c, Field::TrailingComma) + opt_name(*c, Field::BlankLinesUpperBound) + opt_name(*c, Field::BlankLinesLowerBound), opt_name(*c, Field::Version));
        lemma_add_assoc(ns0, opt_name(*c, Field::TrailingComma) + opt_name(*c, Field::BlankLinesUpperBound) + opt_name(*c, Field::BlankLinesLowerBound) + opt_name(*c, Field::Version), opt_name(*c, Field::InlineAttributeWidth));
        lemma_add_assoc(ns0, opt_name(*c, Field::TrailingComma) + opt_name(*c, Field::BlankLinesUpperBound) + opt_name(*c, Field::BlankLinesLowerBound) + opt_name(*c, Field::Version) + opt_name(*c, Field::InlineAttributeWidth), opt_name(*c, Field::FormatGeneratedFiles));
        lemma_add_assoc(ns0, opt_name(*c, Field::TrailingComma) + opt_name(*c, Field::BlankLinesUpperBound) + opt_name(*c, Field::BlankLinesLowerBound) + opt_name(*c, Field::Version) + opt_name(*c, Field::InlineAttributeWidth) + opt_name(*c, Field::FormatGeneratedFiles), opt_name(*c, Field::CondenseWildcardSuffixes));
        assert(ns == ns0 + unstable_names_6(*c));
    }
    (first, Ghost(ns))
}

impl Config {
    /// Whether any option that the external tool considers provisional
    /// (unstable) is explicitly set. Advisory only: nothing is gated on it.
    #[verifier::rlimit(100)]
    pub fn unstable(&self) -> (r: bool)
        ensures
            r == exists|f: Field| !stable(f) && is_set(*self, f),
    {
        let r = self.indent_style.is_some()
            || self.wrap_comments.is_some()
            || self.format_code_in_doc_comments.is_some()
            || self.doc_comment_code_block_width.is_some()
            || self.comment_width.is_some()
            || self.normalize_comments.is_some()
            || self.normalize_doc_attributes.is_some()
            || self.format_strings.is_some()
            || self.format_macro_matchers.is_some()
            || self.format_macro_bodies.is_some()
            || self.hex_literal_case.is_some()
            || self.empty_item_single_line.is_some()
            || self.struct_lit_single_line.is_some()
            || self.fn_single_line.is_some()
            || self.where_single_line.is_some()
            || self.imports_indent.is_some()
            || self.imports_layout.is_some()
            || self.imports_granularity.is_some()
            || self.group_imports.is_some()
            || self.merge_imports.is_some()
            || self.reorder_impl_items.is_some()
            || self.type_punctuation_density.is_some()
            || self.space_before_colon.is_some()
            || self.space_after_colon.is_some()
            || self.spaces_around_ranges.is_some()
            || self.binop_separator.is_some()
            || self.combine_control_expr.is_some()
            || self.overflow_delimited_expr.is_some()
            || self.struct_field_align_threshold.is_some()
            || self.enum_discrim_align_threshold.is_some()
            || self.match_arm_blocks.is_some()
            || self.force_multiline_blocks.is_some()
            || self.brace_style.is_some()
            || self.control_brace_style.is_some()
            || self.trailing_semicolon.is_some()
            || self.trailing_comma.is_some()
            || self.blank_lines_upper_bound.is_some()
            || self.blank_lines_lower_bound.is_some()
            || self.version.is_some()
            || self.inline_attribute_width.is_some()
            || self.format_generated_files.is_some()
            || self.condense_wildcard_suffixes.is_some();
        proof {
            if self.indent_style is Some {
                assert(!stable(Field::IndentStyle) && is_set(*self, Field::IndentStyle));
            }
            if self.wrap_comments is Some {
                assert(!stable(Field::WrapComments) && is_set(*self, Field::WrapComments));
            }
            if self.format_code_in_doc_comments is Some {
                assert(!stable(Field::FormatCodeInDocComments) && is_set(*self, Field::FormatCodeInDocComments));
            }
            if self.doc_comment_code_block_width is Some {
                assert(!stable(Field::DocCommentCodeBlockWidth) && is_set(*self, Field::DocCommentCodeBlockWidth));
            }
            if self.comment_width is Some {
                assert(!stable(Field::CommentWidth) && is_set(*self, Field::CommentWidth));
            }
            if self.normalize_comments is Some {
                assert(!stable(Field::NormalizeComments) && is_set(*self, Field::NormalizeComments));
            }
            if self.normalize_doc_attributes is Some {
                assert(!stable(Field::NormalizeDocAttributes) && is_set(*self, Field::NormalizeDocAttributes));
            }
            if self.format_strings is Some {
                assert(!stable(Field::FormatStrings) && is_set(*self, Field::FormatStrings));
            }
            if self.format_macro_matchers is Some {
                assert(!stable(Field::FormatMacroMatchers) && is_set(*self, Field::FormatMacroMatchers));
            }
            if self.format_macro_bodies is Some {
                assert(!stable(Field::FormatMacroBodies) && is_set(*self, Field::FormatMacroBodies));
            }
            if self.hex_literal_case is Some {
                assert(!stable(Field::HexLiteralCase) && is_set(*self, Field::HexLiteralCase));
            }
            if self.empty_item_single_line is Some {
                assert(!stable(Field::EmptyItemSingleLine) && is_set(*self, Field::EmptyItemSingleLine));
            }
            if self.struct_lit_single_line is Some {
                assert(!stable(Field::StructLitSingleLine) && is_set(*self, Field::StructLitSingleLine));
            }
            if self.fn_single_line is Some {
                assert(!stable(Field::FnSingleLine) && is_set(*self, Field::FnSingleLine));
            }
            if self.where_single_line is Some {
                assert(!stable(Field::WhereSingleLine) && is_set(*self, Field::WhereSingleLine));
            }
            if self.imports_indent is Some {
                assert(!stable(Field::ImportsIndent) && is_set(*self, Field::ImportsIndent));
            }
            if self.imports_layout is Some {
                assert(!stable(Field::ImportsLayout) && is_set(*self, Field::ImportsLayout));
            }
            if self.imports_granularity is Some {
                assert(!stable(Field::ImportsGranularity) && is_set(*self, Field::ImportsGranularity));
            }
            if self.group_imports is Some {
                assert(!stable(Field::GroupImports) && is_set(*self, Field::GroupImports));
            }
            if self.merge_imports is Some {
                assert(!stable(Field::MergeImports) && is_set(*self, Field::MergeImports));
            }
            if self.reorder_impl_items is Some {
                assert(!stable(Field::ReorderImplItems) && is_set(*self, Field::ReorderImplItems));
            }
            if self.type_punctuation_density is Some {
                assert(!stable(Field::TypePunctuationDensity) && is_set(*self, Field::TypePunctuationDensity));
            }
            if self.space_before_colon is Some {
                assert(!stable(Field::SpaceBeforeColon) && is_set(*self, Field::SpaceBeforeColon));
            }
            if self.space_after_colon is Some {
                assert(!stable(Field::SpaceAfterColon) && is_set(*self, Field::SpaceAfterColon));
            }
            if self.spaces_around_ranges is Some {
                assert(!stable(Field::SpacesAroundRanges) && is_set(*self, Field::SpacesAroundRanges));
            }
            if self.binop_separator is Some {
                assert(!stable(Field::BinopSeparator) && is_set(*self, Field::BinopSeparator));
            }
            if self.combine_control_expr is Some {
                assert(!stable(Field::CombineControlExpr) && is_set(*self, Field::CombineControlExpr));
            }
            if self.overflow_delimited_expr is Some {
                assert(!stable(Field::OverflowDelimitedExpr) && is_set(*self, Field::OverflowDelimitedExpr));
            }
            if self.struct_field_align_threshold is Some {
                assert(!stable(Field::StructFieldAlignThreshold) && is_set(*self, Field::StructFieldAlignThreshold));
            }
            if self.enum_discrim_align_threshold is Some {
                assert(!stable(Field::EnumDiscrimAlignThreshold) && is_set(*self, Field::EnumDiscrimAlignThreshold));
            }
            if self.match_arm_blocks is Some {
                assert(!stable(Field::MatchArmBlocks) && is_set(*self, Field::MatchArmBlocks));
            }
            if self.force_multiline_blocks is Some {
                assert(!stable(Field::ForceMultilineBlocks) && is_set(*self, Field::ForceMultilineBlocks));
            }
            if self.brace_style is Some {
                assert(!stable(Field::BraceStyle) && is_set(*self, Field::BraceStyle));
            }
            if self.control_brace_style is Some {
                assert(!stable(Field::ControlBraceStyle) && is_set(*self, Field::ControlBraceStyle));
            }
            if self.trailing_semicolon is Some {
                assert(!stable(Field::TrailingSemicolon) && is_set(*self, Field::TrailingSemicolon));
            }
            if self.trailing_comma is Some {
                assert(!stable(Field::TrailingComma) && is_set(*self, Field::TrailingComma));
            }
            if self.blank_lines_upper_bound is Some {
                assert(!stable(Field::BlankLinesUpperBound) && is_set(*self, Field::BlankLinesUpperBound));
            }
            if self.blank_lines_lower_bound is Some {
                assert(!stable(Field::BlankLinesLowerBound) && is_set(*self, Field::BlankLinesLowerBound));
            }
            if self.version is Some {
                assert(!stable(Field::Version) && is_set(*self, Field::Version));
            }
            if self.inline_attribute_width is Some {
                assert(!stable(Field::InlineAttributeWidth) && is_set(*self, Field::InlineAttributeWidth));
            }
            if self.format_generated_files is Some {
                assert(!stable(Field::FormatGeneratedFiles) && is_set(*self, Field::FormatGeneratedFiles));
            }
            if self.condense_wildcard_suffixes is Some {
                assert(!stable(Field::CondenseWildcardSuffixes) && is_set(*self, Field::CondenseWildcardSuffixes));
            }
        }
        r
    }

    /// The names of the set unstable options, comma-joined, for diagnostic
    /// messages; empty when none is set.
    pub fn list_unstable(&self) -> (r: String)
        ensures
            r@ == comma_join(unstable_names(*self)),
    {
        let mut out = String::new();
        let ghost ns0: Seq<Seq<char>> = Seq::empty();
        let (f1, g1) = push_unstable_1(&mut out, true, self, Ghost(ns0));
        proof {
            lemma_empty_add(unstable_names_1(*self));
        }
        let (f2, g2) = push_unstable_2(&mut out, f1, self, g1);
        let (f3, g3) = push_unstable_3(&mut out, f2, self, g2);
        let (f4, g4) = push_unstable_4(&mut out, f3, self, g3);
        let (f5, g5) = push_unstable_5(&mut out, f4, self, g4);
        let (f6, g6) = push_unstable_6(&mut out, f5, self, g5);
        proof {
            assert(g6@ == unstable_names(*self));
        }
        out
    }
}

} // verus!
