use vstd::prelude::*;

verus! {

/// Node kinds of the HTML grammar, in the grammar's own numbering.
#[derive(Clone, Copy, Debug, PartialEq, Eq, Structural)]
pub enum Html {
    End,
    LTBANG,
    DoctypeToken1,
    GT,
    Doctype2,
    LT,
    SLASHGT,
    LTSLASH,
    EQ,
    AttributeName,
    AttributeValue,
    Entity,
    SQUOTE,
    AttributeValue2,
    DQUOTE,
    AttributeValue3,
    Text,
    TagName,
    TagName2,
    TagName3,
    TagName4,
    ErroneousEndTagName,
    ImplicitEndTag,
    RawText,
    Comment,
    Document,
    Doctype,
    Node,
    Element,
    ScriptElement,
    StyleElement,
    StartTag,
    StartTag2,
    StartTag3,
    SelfClosingTag,
    EndTag,
    ErroneousEndTag,
    Attribute,
    QuotedAttributeValue,
    DocumentRepeat1,
    StartTagRepeat1,
    Error,
}

impl Html {
    /// The grammar's numeric id of this kind.
    pub open spec fn id(self) -> u16 {
        match self {
            Html::End => 0,
            Html::LTBANG => 1,
            Html::DoctypeToken1 => 2,
            Html::GT => 3,
            Html::Doctype2 => 4,
            Html::LT => 5,
            Html::SLASHGT => 6,
            Html::LTSLASH => 7,
            Html::EQ => 8,
            Html::AttributeName => 9,
            Html::AttributeValue => 10,
            Html::Entity => 11,
            Html::SQUOTE => 12,
            Html::AttributeValue2 => 13,
            Html::DQUOTE => 14,
            Html::AttributeValue3 => 15,
            Html::Text => 16,
            Html::TagName => 17,
            Html::TagName2 => 18,
            Html::TagName3 => 19,
            Html::TagName4 => 20,
            Html::ErroneousEndTagName => 21,
            Html::ImplicitEndTag => 22,
            Html::RawText => 23,
            Html::Comment => 24,
            Html::Document => 25,
            Html::Doctype => 26,
            Html::Node => 27,
            Html::Element => 28,
            Html::ScriptElement => 29,
            Html::StyleElement => 30,
            Html::StartTag => 31,
            Html::StartTag2 => 32,
            Html::StartTag3 => 33,
            Html::SelfClosingTag => 34,
            Html::EndTag => 35,
            Html::ErroneousEndTag => 36,
            Html::Attribute => 37,
            Html::QuotedAttributeValue => 38,
            Html::DocumentRepeat1 => 39,
            Html::StartTagRepeat1 => 40,
            Html::Error => 41,
        }
    }

    /// The kind that a numeric id stands for: ids past the table give `Error`.
    pub open spec fn spec_from_id(x: u16) -> Html {
        match x {
            0 => Html::End,
            1 => Html::LTBANG,
            2 => Html::DoctypeToken1,
            3 => Html::GT,
            4 => Html::Doctype2,
            5 => Html::LT,
            6 => Html::SLASHGT,
            7 => Html::LTSLASH,
            8 => Html::EQ,
            9 => Html::AttributeName,
            10 => Html::AttributeValue,
            11 => Html::Entity,
            12 => Html::SQUOTE,
            13 => Html::AttributeValue2,
            14 => Html::DQUOTE,
            15 => Html::AttributeValue3,
            16 => Html::Text,
            17 => Html::TagName,
            18 => Html::TagName2,
            19 => Html::TagName3,
            20 => Html::TagName4,
            21 => Html::ErroneousEndTagName,
            22 => Html::ImplicitEndTag,
            23 => Html::RawText,
            24 => Html::Comment,
            25 => Html::Document,
            26 => Html::Doctype,
            27 => Html::Node,
            28 => Html::Element,
            29 => Html::ScriptElement,
            30 => Html::StyleElement,
            31 => Html::StartTag,
            32 => Html::StartTag2,
            33 => Html::StartTag3,
            34 => Html::SelfClosingTag,
            35 => Html::EndTag,
            36 => Html::ErroneousEndTag,
            37 => Html::Attribute,
            38 => Html::QuotedAttributeValue,
            39 => Html::DocumentRepeat1,
            40 => Html::StartTagRepeat1,
            _ => Html::Error,
        }
    }

    /// The display string of this kind.
    pub open spec fn text(self) -> Seq<char> {
        match self {
            Html::End => "end"@,
            Html::LTBANG => "<!"@,
            Html::DoctypeToken1 => "doctype_token1"@,
            Html::GT => ">"@,
            Html::Doctype2 => "doctype"@,
            Html::LT => "<"@,
            Html::SLASHGT => "/>"@,
            Html::LTSLASH => "</"@,
            Html::EQ => "="@,
            Html::AttributeName => "attribute_name"@,
            Html::AttributeValue => "attribute_value"@,
            Html::Entity => "entity"@,
            Html::SQUOTE => "'"@,
            Html::AttributeValue2 => "attribute_value"@,
            Html::DQUOTE => "\""@,
            Html::AttributeValue3 => "attribute_value"@,
            Html::Text => "text"@,
            Html::TagName => "tag_name"@,
            Html::TagName2 => "tag_name"@,
            Html::TagName3 => "tag_name"@,
            Html::TagName4 => "tag_name"@,
            Html::ErroneousEndTagName => "erroneous_end_tag_name"@,
            Html::ImplicitEndTag => "_implicit_end_tag"@,
            Html::RawText => "raw_text"@,
            Html::Comment => "comment"@,
            Html::Document => "document"@,
            Html::Doctype => "doctype"@,
            Html::Node => "_node"@,
            Html::Element => "element"@,
            Html::ScriptElement => "script_element"@,
            Html::StyleElement => "style_element"@,
            Html::StartTag => "start_tag"@,
            Html::StartTag2 => "start_tag"@,
            Html::StartTag3 => "start_tag"@,
            Html::SelfClosingTag => "self_closing_tag"@,
            Html::EndTag => "end_tag"@,
            Html::ErroneousEndTag => "erroneous_end_tag"@,
            Html::Attribute => "attribute"@,
            Html::QuotedAttributeValue => "quoted_attribute_value"@,
            Html::DocumentRepeat1 => "document_repeat1"@,
            Html::StartTagRepeat1 => "start_tag_repeat1"@,
            Html::Error => "ERROR"@,
        }
    }

    /// Maps a numeric kind id to its kind; an id outside the table maps to `Error`.
    pub fn from_u16(x: u16) -> (r: Html)
        ensures
            r == Html::spec_from_id(x),
            x <= 41 ==> r.id() == x,
            x > 41 ==> r == Html::Error,
    {
        match x {
            0 => Html::End,
            1 => Html::LTBANG,
            2 => Html::DoctypeToken1,
            3 => Html::GT,
            4 => Html::Doctype2,
            5 => Html::LT,
            6 => Html::SLASHGT,
            7 => Html::LTSLASH,
            8 => Html::EQ,
            9 => Html::AttributeName,
            10 => Html::AttributeValue,
            11 => Html::Entity,
            12 => Html::SQUOTE,
            13 => Html::AttributeValue2,
            14 => Html::DQUOTE,
            15 => Html::AttributeValue3,
            16 => Html::Text,
            17 => Html::TagName,
            18 => Html::TagName2,
            19 => Html::TagName3,
            20 => Html::TagName4,
            21 => Html::ErroneousEndTagName,
            22 => Html::ImplicitEndTag,
            23 => Html::RawText,
            24 => Html::Comment,
            25 => Html::Document,
            26 => Html::Doctype,
            27 => Html::Node,
            28 => Html::Element,
            29 => Html::ScriptElement,
            30 => Html::StyleElement,
            31 => Html::StartTag,
            32 => Html::StartTag2,
            33 => Html::StartTag3,
            34 => Html::SelfClosingTag,
            35 => Html::EndTag,
            36 => Html::ErroneousEndTag,
            37 => Html::Attribute,
            38 => Html::QuotedAttributeValue,
            39 => Html::DocumentRepeat1,
            40 => Html::StartTagRepeat1,
            _ => Html::Error,
        }
    }

    /// The display string of this kind.
    pub fn as_str(&self) -> (r: &'static str)
        ensures
            r@ == self.text(),
    {
        match self {
            Html::End => "end",
            Html::LTBANG => "<!",
            Html::DoctypeToken1 => "doctype_token1",
            Html::GT => ">",
            Html::Doctype2 => "doctype",
            Html::LT => "<",
            Html::SLASHGT => "/>",
            Html::LTSLASH => "</",
            Html::EQ => "=",
            Html::AttributeName => "attribute_name",
            Html::AttributeValue => "attribute_value",
            Html::Entity => "entity",
            Html::SQUOTE => "'",
            Html::AttributeValue2 => "attribute_value",
            Html::DQUOTE => "\"",
            Html::AttributeValue3 => "attribute_value",
            Html::Text => "text",
            Html::TagName => "tag_name",
            Html::TagName2 => "tag_name",
            Html::TagName3 => "tag_name",
            Html::TagName4 => "tag_name",
            Html::ErroneousEndTagName => "erroneous_end_tag_name",
            Html::ImplicitEndTag => "_implicit_end_tag",
            Html::RawText => "raw_text",
            Html::Comment => "comment",
            Html::Document => "document",
            Html::Doctype => "doctype",
            Html::Node => "_node",
            Html::Element => "element",
            Html::ScriptElement => "script_element",
            Html::StyleElement => "style_element",
            Html::StartTag => "start_tag",
            Html::StartTag2 => "start_tag",
            Html::StartTag3 => "start_tag",
            Html::SelfClosingTag => "self_closing_tag",
            Html::EndTag => "end_tag",
            Html::ErroneousEndTag => "erroneous_end_tag",
            Html::Attribute => "attribute",
            Html::QuotedAttributeValue => "quoted_attribute_value",
            Html::DocumentRepeat1 => "document_repeat1",
            Html::StartTagRepeat1 => "start_tag_repeat1",
            Html::Error => "ERROR",
        }
    }
}

impl From<u16> for Html {
    fn from(x: u16) -> (r: Html)
        ensures
            r == Html::spec_from_id(x),
    {
        Html::from_u16(x)
    }
}

impl vstd::std_specs::convert::FromSpecImpl<u16> for Html {
    open spec fn obeys_from_spec() -> bool {
        true
    }

    open spec fn from_spec(x: u16) -> Html {
        Html::spec_from_id(x)
    }
}

/// A kind id read back from its kind gives that kind again.
pub proof fn lemma_id_round_trip(k: Html)
    ensures
        Html::spec_from_id(k.id()) == k,
{
}

} // verus!
