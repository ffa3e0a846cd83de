//! Enumerations that describe the properties of OBS objects.
use vstd::prelude::*;

verus! {

/// The kind of a property of an OBS object.
#[derive(Clone, Copy, Debug, PartialEq, Eq, Structural)]
pub enum ObsPropertyType {
    Invalid,
    Bool,
    Int,
    Float,
    Text,
    Path,
    List,
    Color,
    Button,
    Font,
    EditableList,
    FrameRate,
    Group,
    ColorAlpha,
}

impl ObsPropertyType {
    /// The numeric value that libobs uses for this variant.
    pub open spec fn spec_raw(self) -> u32 {
        match self {
            ObsPropertyType::Invalid => 0u32,
            ObsPropertyType::Bool => 1u32,
            ObsPropertyType::Int => 2u32,
            ObsPropertyType::Float => 3u32,
            ObsPropertyType::Text => 4u32,
            ObsPropertyType::Path => 5u32,
            ObsPropertyType::List => 6u32,
            ObsPropertyType::Color => 7u32,
            ObsPropertyType::Button => 8u32,
            ObsPropertyType::Font => 9u32,
            ObsPropertyType::EditableList => 10u32,
            ObsPropertyType::FrameRate => 11u32,
            ObsPropertyType::Group => 12u32,
            ObsPropertyType::ColorAlpha => 13u32,
        }
    }

    /// The variant that a libobs value stands for, if any.
    pub open spec fn spec_from_raw(value: u32) -> Option<ObsPropertyType> {
        if value == 0u32 {
            Some(ObsPropertyType::Invalid)
        } else if value == 1u32 {
            Some(ObsPropertyType::Bool)
        } else if value == 2u32 {
            Some(ObsPropertyType::Int)
        } else if value == 3u32 {
            Some(ObsPropertyType::Float)
        } else if value == 4u32 {
            Some(ObsPropertyType::Text)
        } else if value == 5u32 {
            Some(ObsPropertyType::Path)
        } else if value == 6u32 {
            Some(ObsPropertyType::List)
        } else if value == 7u32 {
            Some(ObsPropertyType::Color)
        } else if value == 8u32 {
            Some(ObsPropertyType::Button)
        } else if value == 9u32 {
            Some(ObsPropertyType::Font)
        } else if value == 10u32 {
            Some(ObsPropertyType::EditableList)
        } else if value == 11u32 {
            Some(ObsPropertyType::FrameRate)
        } else if value == 12u32 {
            Some(ObsPropertyType::Group)
        } else if value == 13u32 {
            Some(ObsPropertyType::ColorAlpha)
        } else {
            None
        }
    }

    /// Returns the numeric value that libobs uses for this variant.
    pub fn to_raw(self) -> (r: u32)
        ensures
            r == self.spec_raw(),
    {
        match self {
            ObsPropertyType::Invalid => 0,
            ObsPropertyType::Bool => 1,
            ObsPropertyType::Int => 2,
            ObsPropertyType::Float => 3,
            ObsPropertyType::Text => 4,
            ObsPropertyType::Path => 5,
            ObsPropertyType::List => 6,
            ObsPropertyType::Color => 7,
            ObsPropertyType::Button => 8,
            ObsPropertyType::Font => 9,
            ObsPropertyType::EditableList => 10,
            ObsPropertyType::FrameRate => 11,
            ObsPropertyType::Group => 12,
            ObsPropertyType::ColorAlpha => 13,
        }
    }

    /// Converts a libobs value back into a variant; `None` when no variant has it.
    pub fn from_raw(value: u32) -> (r: Option<ObsPropertyType>)
        ensures
            r == ObsPropertyType::spec_from_raw(value),
    {
        if value == 0 {
            Some(ObsPropertyType::Invalid)
        } else if value == 1 {
            Some(ObsPropertyType::Bool)
        } else if value == 2 {
            Some(ObsPropertyType::Int)
        } else if value == 3 {
            Some(ObsPropertyType::Float)
        } else if value == 4 {
            Some(ObsPropertyType::Text)
        } else if value == 5 {
            Some(ObsPropertyType::Path)
        } else if value == 6 {
            Some(ObsPropertyType::List)
        } else if value == 7 {
            Some(ObsPropertyType::Color)
        } else if value == 8 {
            Some(ObsPropertyType::Button)
        } else if value == 9 {
            Some(ObsPropertyType::Font)
        } else if value == 10 {
            Some(ObsPropertyType::EditableList)
        } else if value == 11 {
            Some(ObsPropertyType::FrameRate)
        } else if value == 12 {
            Some(ObsPropertyType::Group)
        } else if value == 13 {
            Some(ObsPropertyType::ColorAlpha)
        } else {
            None
        }
    }

    /// The variant's name, as its `Debug` output shows it.
    pub open spec fn spec_name(self) -> Seq<char> {
        match self {
            ObsPropertyType::Invalid => "Invalid"@,
            ObsPropertyType::Bool => "Bool"@,
            ObsPropertyType::Int => "Int"@,
            ObsPropertyType::Float => "Float"@,
            ObsPropertyType::Text => "Text"@,
            ObsPropertyType::Path => "Path"@,
            ObsPropertyType::List => "List"@,
            ObsPropertyType::Color => "Color"@,
            ObsPropertyType::Button => "Button"@,
            ObsPropertyType::Font => "Font"@,
            ObsPropertyType::EditableList => "EditableList"@,
            ObsPropertyType::FrameRate => "FrameRate"@,
            ObsPropertyType::Group => "Group"@,
            ObsPropertyType::ColorAlpha => "ColorAlpha"@,
        }
    }

    /// Returns the variant's name.
    pub fn name(self) -> (r: &'static str)
        ensures
            r@ == self.spec_name(),
    {
        match self {
            ObsPropertyType::Invalid => "Invalid",
            ObsPropertyType::Bool => "Bool",
            ObsPropertyType::Int => "Int",
            ObsPropertyType::Float => "Float",
            ObsPropertyType::Text => "Text",
            ObsPropertyType::Path => "Path",
            ObsPropertyType::List => "List",
            ObsPropertyType::Color => "Color",
            ObsPropertyType::Button => "Button",
            ObsPropertyType::Font => "Font",
            ObsPropertyType::EditableList => "EditableList",
            ObsPropertyType::FrameRate => "FrameRate",
            ObsPropertyType::Group => "Group",
            ObsPropertyType::ColorAlpha => "ColorAlpha",
        }
    }
}

/// Turning a ObsPropertyType into its libobs value and back gives the same variant,
/// and a libobs value is only ever read back as the variant that has that value.
pub proof fn lemma_property_type_raw_roundtrip(e: ObsPropertyType, value: u32)
    ensures
        ObsPropertyType::spec_from_raw(e.spec_raw()) == Some(e),
        ObsPropertyType::spec_from_raw(value) matches Some(f) ==> f.spec_raw() == value,
{
}

/// The type of the values that a list property holds.
#[derive(Clone, Copy, Debug, PartialEq, Eq, Structural)]
pub enum ObsComboFormat {
    Invalid,
    Int,
    Float,
    String,
    Bool,
}

impl ObsComboFormat {
    /// The numeric value that libobs uses for this variant.
    pub open spec fn spec_raw(self) -> u32 {
        match self {
            ObsComboFormat::Invalid => 0u32,
            ObsComboFormat::Int => 1u32,
            ObsComboFormat::Float => 2u32,
            ObsComboFormat::String => 3u32,
            ObsComboFormat::Bool => 4u32,
        }
    }

    /// The variant that a libobs value stands for, if any.
    pub open spec fn spec_from_raw(value: u32) -> Option<ObsComboFormat> {
        if value == 0u32 {
            Some(ObsComboFormat::Invalid)
        } else if value == 1u32 {
            Some(ObsComboFormat::Int)
        } else if value == 2u32 {
            Some(ObsComboFormat::Float)
        } else if value == 3u32 {
            Some(ObsComboFormat::String)
        } else if value == 4u32 {
            Some(ObsComboFormat::Bool)
        } else {
            None
        }
    }

    /// Returns the numeric value that libobs uses for this variant.
    pub fn to_raw(self) -> (r: u32)
        ensures
            r == self.spec_raw(),
    {
        match self {
            ObsComboFormat::Invalid => 0,
            ObsComboFormat::Int => 1,
            ObsComboFormat::Float => 2,
            ObsComboFormat::String => 3,
            ObsComboFormat::Bool => 4,
        }
    }

    /// Converts a libobs value back into a variant; `None` when no variant has it.
    pub fn from_raw(value: u32) -> (r: Option<ObsComboFormat>)
        ensures
            r == ObsComboFormat::spec_from_raw(value),
    {
        if value == 0 {
            Some(ObsComboFormat::Invalid)
        } else if value == 1 {
            Some(ObsComboFormat::Int)
        } else if value == 2 {
            Some(ObsComboFormat::Float)
        } else if value == 3 {
            Some(ObsComboFormat::String)
        } else if value == 4 {
            Some(ObsComboFormat::Bool)
        } else {
            None
        }
    }

    /// The variant's name, as its `Debug` output shows it.
    pub open spec fn spec_name(self) -> Seq<char> {
        match self {
            ObsComboFormat::Invalid => "Invalid"@,
            ObsComboFormat::Int => "Int"@,
            ObsComboFormat::Float => "Float"@,
            ObsComboFormat::String => "String"@,
            ObsComboFormat::Bool => "Bool"@,
        }
    }

    /// Returns the variant's name.
    pub fn name(self) -> (r: &'static str)
        ensures
            r@ == self.spec_name(),
    {
        match self {
            ObsComboFormat::Invalid => "Invalid",
            ObsComboFormat::Int => "Int",
            ObsComboFormat::Float => "Float",
            ObsComboFormat::String => "String",
            ObsComboFormat::Bool => "Bool",
        }
    }
}

/// Turning a ObsComboFormat into its libobs value and back gives the same variant,
/// and a libobs value is only ever read back as the variant that has that value.
pub proof fn lemma_combo_format_raw_roundtrip(e: ObsComboFormat, value: u32)
    ensures
        ObsComboFormat::spec_from_raw(e.spec_raw()) == Some(e),
        ObsComboFormat::spec_from_raw(value) matches Some(f) ==> f.spec_raw() == value,
{
}

/// How a list property is shown.
#[derive(Clone, Copy, Debug, PartialEq, Eq, Structural)]
pub enum ObsComboType {
    Invalid,
    Editable,
    List,
    Radio,
}

impl ObsComboType {
    /// The numeric value that libobs uses for this variant.
    pub open spec fn spec_raw(self) -> u32 {
        match self {
            ObsComboType::Invalid => 0u32,
            ObsComboType::Editable => 1u32,
            ObsComboType::List => 2u32,
            ObsComboType::Radio => 3u32,
        }
    }

    /// The variant that a libobs value stands for, if any.
    pub open spec fn spec_from_raw(value: u32) -> Option<ObsComboType> {
        if value == 0u32 {
            Some(ObsComboType::Invalid)
        } else if value == 1u32 {
            Some(ObsComboType::Editable)
        } else if value == 2u32 {
            Some(ObsComboType::List)
        } else if value == 3u32 {
            Some(ObsComboType::Radio)
        } else {
            None
        }
    }

    /// Returns the numeric value that libobs uses for this variant.
    pub fn to_raw(self) -> (r: u32)
        ensures
            r == self.spec_raw(),
    {
        match self {
            ObsComboType::Invalid => 0,
            ObsComboType::Editable => 1,
            ObsComboType::List => 2,
            ObsComboType::Radio => 3,
        }
    }

    /// Converts a libobs value back into a variant; `None` when no variant has it.
    pub fn from_raw(value: u32) -> (r: Option<ObsComboType>)
        ensures
            r == ObsComboType::spec_from_raw(value),
    {
        if value == 0 {
            Some(ObsComboType::Invalid)
        } else if value == 1 {
            Some(ObsComboType::Editable)
        } else if value == 2 {
            Some(ObsComboType::List)
        } else if value == 3 {
            Some(ObsComboType::Radio)
        } else {
            None
        }
    }

    /// The variant's name, as its `Debug` output shows it.
    pub open spec fn spec_name(self) -> Seq<char> {
        match self {
            ObsComboType::Invalid => "Invalid"@,
            ObsComboType::Editable => "Editable"@,
            ObsComboType::List => "List"@,
            ObsComboType::Radio => "Radio"@,
        }
    }

    /// Returns the variant's name.
    pub fn name(self) -> (r: &'static str)
        ensures
            r@ == self.spec_name(),
    {
        match self {
            ObsComboType::Invalid => "Invalid",
            ObsComboType::Editable => "Editable",
            ObsComboType::List => "List",
            ObsComboType::Radio => "Radio",
        }
    }
}

/// Turning a ObsComboType into its libobs value and back gives the same variant,
/// and a libobs value is only ever read back as the variant that has that value.
pub proof fn lemma_combo_type_raw_roundtrip(e: ObsComboType, value: u32)
    ensures
        ObsComboType::spec_from_raw(e.spec_raw()) == Some(e),
        ObsComboType::spec_from_raw(value) matches Some(f) ==> f.spec_raw() == value,
{
}

/// The kind of a text property.
#[derive(Clone, Copy, Debug, PartialEq, Eq, Structural)]
pub enum ObsTextType {
    Default,
    Password,
    Multiline,
    Info,
}

impl ObsTextType {
    /// The numeric value that libobs uses for this variant.
    pub open spec fn spec_raw(self) -> u32 {
        match self {
            ObsTextType::Default => 0u32,
            ObsTextType::Password => 1u32,
            ObsTextType::Multiline => 2u32,
            ObsTextType::Info => 3u32,
        }
    }

    /// The variant that a libobs value stands for, if any.
    pub open spec fn spec_from_raw(value: u32) -> Option<ObsTextType> {
        if value == 0u32 {
            Some(ObsTextType::Default)
        } else if value == 1u32 {
            Some(ObsTextType::Password)
        } else if value == 2u32 {
            Some(ObsTextType::Multiline)
        } else if value == 3u32 {
            Some(ObsTextType::Info)
        } else {
            None
        }
    }

    /// Returns the numeric value that libobs uses for this variant.
    pub fn to_raw(self) -> (r: u32)
        ensures
            r == self.spec_raw(),
    {
        match self {
            ObsTextType::Default => 0,
            ObsTextType::Password => 1,
            ObsTextType::Multiline => 2,
            ObsTextType::Info => 3,
        }
    }

    /// Converts a libobs value back into a variant; `None` when no variant has it.
    pub fn from_raw(value: u32) -> (r: Option<ObsTextType>)
        ensures
            r == ObsTextType::spec_from_raw(value),
    {
        if value == 0 {
            Some(ObsTextType::Default)
        } else if value == 1 {
            Some(ObsTextType::Password)
        } else if value == 2 {
            Some(ObsTextType::Multiline)
        } else if value == 3 {
            Some(ObsTextType::Info)
        } else {
            None
        }
    }

    /// The variant's name, as its `Debug` output shows it.
    pub open spec fn spec_name(self) -> Seq<char> {
        match self {
            ObsTextType::Default => "Default"@,
            ObsTextType::Password => "Password"@,
            ObsTextType::Multiline => "Multiline"@,
            ObsTextType::Info => "Info"@,
        }
    }

    /// Returns the variant's name.
    pub fn name(self) -> (r: &'static str)
        ensures
            r@ == self.spec_name(),
    {
        match self {
            ObsTextType::Default => "Default",
            ObsTextType::Password => "Password",
            ObsTextType::Multiline => "Multiline",
            ObsTextType::Info => "Info",
        }
    }
}

/// Turning a ObsTextType into its libobs value and back gives the same variant,
/// and a libobs value is only ever read back as the variant that has that value.
pub proof fn lemma_text_type_raw_roundtrip(e: ObsTextType, value: u32)
    ensures
        ObsTextType::spec_from_raw(e.spec_raw()) == Some(e),
        ObsTextType::spec_from_raw(value) matches Some(f) ==> f.spec_raw() == value,
{
}

/// The severity of an informational text property.
#[derive(Clone, Copy, Debug, PartialEq, Eq, Structural)]
pub enum ObsTextInfoType {
    Normal,
    Warning,
    Error,
}

impl ObsTextInfoType {
    /// The numeric value that libobs uses for this variant.
    pub open spec fn spec_raw(self) -> u32 {
        match self {
            ObsTextInfoType::Normal => 0u32,
            ObsTextInfoType::Warning => 1u32,
            ObsTextInfoType::Error => 2u32,
        }
    }

    /// The variant that a libobs value stands for, if any.
    pub open spec fn spec_from_raw(value: u32) -> Option<ObsTextInfoType> {
        if value == 0u32 {
            Some(ObsTextInfoType::Normal)
        } else if value == 1u32 {
            Some(ObsTextInfoType::Warning)
        } else if value == 2u32 {
            Some(ObsTextInfoType::Error)
        } else {
            None
        }
    }

    /// Returns the numeric value that libobs uses for this variant.
    pub fn to_raw(self) -> (r: u32)
        ensures
            r == self.spec_raw(),
    {
        match self {
            ObsTextInfoType::Normal => 0,
            ObsTextInfoType::Warning => 1,
            ObsTextInfoType::Error => 2,
        }
    }

    /// Converts a libobs value back into a variant; `None` when no variant has it.
    pub fn from_raw(value: u32) -> (r: Option<ObsTextInfoType>)
        ensures
            r == ObsTextInfoType::spec_from_raw(value),
    {
        if value == 0 {
            Some(ObsTextInfoType::Normal)
        } else if value == 1 {
            Some(ObsTextInfoType::Warning)
        } else if value == 2 {
            Some(ObsTextInfoType::Error)
        } else {
            None
        }
    }

    /// The variant's name, as its `Debug` output shows it.
    pub open spec fn spec_name(self) -> Seq<char> {
        match self {
            ObsTextInfoType::Normal => "Normal"@,
            ObsTextInfoType::Warning => "Warning"@,
            ObsTextInfoType::Error => "Error"@,
        }
    }

    /// Returns the variant's name.
    pub fn name(self) -> (r: &'static str)
        ensures
            r@ == self.spec_name(),
    {
        match self {
            ObsTextInfoType::Normal => "Normal",
            ObsTextInfoType::Warning => "Warning",
            ObsTextInfoType::Error => "Error",
        }
    }
}

/// Turning a ObsTextInfoType into its libobs value and back gives the same variant,
/// and a libobs value is only ever read back as the variant that has that value.
pub proof fn lemma_text_info_type_raw_roundtrip(e: ObsTextInfoType, value: u32)
    ensures
        ObsTextInfoType::spec_from_raw(e.spec_raw()) == Some(e),
        ObsTextInfoType::spec_from_raw(value) matches Some(f) ==> f.spec_raw() == value,
{
}

/// How a number property is edited.
#[derive(Clone, Copy, Debug, PartialEq, Eq, Structural)]
pub enum ObsNumberType {
    Scroller,
    Slider,
}

impl ObsNumberType {
    /// The numeric value that libobs uses for this variant.
    pub open spec fn spec_raw(self) -> u32 {
        match self {
            ObsNumberType::Scroller => 0u32,
            ObsNumberType::Slider => 1u32,
        }
    }

    /// The variant that a libobs value stands for, if any.
    pub open spec fn spec_from_raw(value: u32) -> Option<ObsNumberType> {
        if value == 0u32 {
            Some(ObsNumberType::Scroller)
        } else if value == 1u32 {
            Some(ObsNumberType::Slider)
        } else {
            None
        }
    }

    /// Returns the numeric value that libobs uses for this variant.
    pub fn to_raw(self) -> (r: u32)
        ensures
            r == self.spec_raw(),
    {
        match self {
            ObsNumberType::Scroller => 0,
            ObsNumberType::Slider => 1,
        }
    }

    /// Converts a libobs value back into a variant; `None` when no variant has it.
    pub fn from_raw(value: u32) -> (r: Option<ObsNumberType>)
        ensures
            r == ObsNumberType::spec_from_raw(value),
    {
        if value == 0 {
            Some(ObsNumberType::Scroller)
        } else if value == 1 {
            Some(ObsNumberType::Slider)
        } else {
            None
        }
    }

    /// The variant's name, as its `Debug` output shows it.
    pub open spec fn spec_name(self) -> Seq<char> {
        match self {
            ObsNumberType::Scroller => "Scroller"@,
            ObsNumberType::Slider => "Slider"@,
        }
    }

    /// Returns the variant's name.
    pub fn name(self) -> (r: &'static str)
        ensures
            r@ == self.spec_name(),
    {
        match self {
            ObsNumberType::Scroller => "Scroller",
            ObsNumberType::Slider => "Slider",
        }
    }
}

/// Turning a ObsNumberType into its libobs value and back gives the same variant,
/// and a libobs value is only ever read back as the variant that has that value.
pub proof fn lemma_number_type_raw_roundtrip(e: ObsNumberType, value: u32)
    ensures
        ObsNumberType::spec_from_raw(e.spec_raw()) == Some(e),
        ObsNumberType::spec_from_raw(value) matches Some(f) ==> f.spec_raw() == value,
{
}

/// What a path property points to.
#[derive(Clone, Copy, Debug, PartialEq, Eq, Structural)]
pub enum ObsPathType {
    File,
    FileSave,
    Directory,
}

impl ObsPathType {
    /// The numeric value that libobs uses for this variant.
    pub open spec fn spec_raw(self) -> u32 {
        match self {
            ObsPathType::File => 0u32,
            ObsPathType::FileSave => 1u32,
            ObsPathType::Directory => 2u32,
        }
    }

    /// The variant that a libobs value stands for, if any.
    pub open spec fn spec_from_raw(value: u32) -> Option<ObsPathType> {
        if value == 0u32 {
            Some(ObsPathType::File)
        } else if value == 1u32 {
            Some(ObsPathType::FileSave)
        } else if value == 2u32 {
            Some(ObsPathType::Directory)
        } else {
            None
        }
    }

    /// Returns the numeric value that libobs uses for this variant.
    pub fn to_raw(self) -> (r: u32)
        ensures
            r == self.spec_raw(),
    {
        match self {
            ObsPathType::File => 0,
            ObsPathType::FileSave => 1,
            ObsPathType::Directory => 2,
        }
    }

    /// Converts a libobs value back into a variant; `None` when no variant has it.
    pub fn from_raw(value: u32) -> (r: Option<ObsPathType>)
        ensures
            r == ObsPathType::spec_from_raw(value),
    {
        if value == 0 {
            Some(ObsPathType::File)
        } else if value == 1 {
            Some(ObsPathType::FileSave)
        } else if value == 2 {
            Some(ObsPathType::Directory)
        } else {
            None
        }
    }

    /// The variant's name, as its `Debug` output shows it.
    pub open spec fn spec_name(self) -> Seq<char> {
        match self {
            ObsPathType::File => "File"@,
            ObsPathType::FileSave => "FileSave"@,
            ObsPathType::Directory => "Directory"@,
        }
    }

    /// Returns the variant's name.
    pub fn name(self) -> (r: &'static str)
        ensures
            r@ == self.spec_name(),
    {
        match self {
            ObsPathType::File => "File",
            ObsPathType::FileSave => "FileSave",
            ObsPathType::Directory => "Directory",
        }
    }
}

/// Turning a ObsPathType into its libobs value and back gives the same variant,
/// and a libobs value is only ever read back as the variant that has that value.
pub proof fn lemma_path_type_raw_roundtrip(e: ObsPathType, value: u32)
    ensures
        ObsPathType::spec_from_raw(e.spec_raw()) == Some(e),
        ObsPathType::spec_from_raw(value) matches Some(f) ==> f.spec_raw() == value,
{
}

/// What an editable list property holds.
#[derive(Clone, Copy, Debug, PartialEq, Eq, Structural)]
pub enum ObsEditableListType {
    Strings,
    Files,
    FilesAndUrls,
}

impl ObsEditableListType {
    /// The numeric value that libobs uses for this variant.
    pub open spec fn spec_raw(self) -> u32 {
        match self {
            ObsEditableListType::Strings => 0u32,
            ObsEditableListType::Files => 1u32,
            ObsEditableListType::FilesAndUrls => 2u32,
        }
    }

    /// The variant that a libobs value stands for, if any.
    pub open spec fn spec_from_raw(value: u32) -> Option<ObsEditableListType> {
        if value == 0u32 {
            Some(ObsEditableListType::Strings)
        } else if value == 1u32 {
            Some(ObsEditableListType::Files)
        } else if value == 2u32 {
            Some(ObsEditableListType::FilesAndUrls)
        } else {
            None
        }
    }

    /// Returns the numeric value that libobs uses for this variant.
    pub fn to_raw(self) -> (r: u32)
        ensures
            r == self.spec_raw(),
    {
        match self {
            ObsEditableListType::Strings => 0,
            ObsEditableListType::Files => 1,
            ObsEditableListType::FilesAndUrls => 2,
        }
    }

    /// Converts a libobs value back into a variant; `None` when no variant has it.
    pub fn from_raw(value: u32) -> (r: Option<ObsEditableListType>)
        ensures
            r == ObsEditableListType::spec_from_raw(value),
    {
        if value == 0 {
            Some(ObsEditableListType::Strings)
        } else if value == 1 {
            Some(ObsEditableListType::Files)
        } else if value == 2 {
            Some(ObsEditableListType::FilesAndUrls)
        } else {
            None
        }
    }

    /// The variant's name, as its `Debug` output shows it.
    pub open spec fn spec_name(self) -> Seq<char> {
        match self {
            ObsEditableListType::Strings => "Strings"@,
            ObsEditableListType::Files => "Files"@,
            ObsEditableListType::FilesAndUrls => "FilesAndUrls"@,
        }
    }

    /// Returns the variant's name.
    pub fn name(self) -> (r: &'static str)
        ensures
            r@ == self.spec_name(),
    {
        match self {
            ObsEditableListType::Strings => "Strings",
            ObsEditableListType::Files => "Files",
            ObsEditableListType::FilesAndUrls => "FilesAndUrls",
        }
    }
}

/// Turning a ObsEditableListType into its libobs value and back gives the same variant,
/// and a libobs value is only ever read back as the variant that has that value.
pub proof fn lemma_editable_list_type_raw_roundtrip(e: ObsEditableListType, value: u32)
    ensures
        ObsEditableListType::spec_from_raw(e.spec_raw()) == Some(e),
        ObsEditableListType::spec_from_raw(value) matches Some(f) ==> f.spec_raw() == value,
{
}

/// The kind of a group property.
#[derive(Clone, Copy, Debug, PartialEq, Eq, Structural)]
pub enum ObsGroupType {
    Invalid,
    Normal,
    Checkable,
}

impl ObsGroupType {
    /// The numeric value that libobs uses for this variant.
    pub open spec fn spec_raw(self) -> u32 {
        match self {
            ObsGroupType::Invalid => 0u32,
            ObsGroupType::Normal => 1u32,
            ObsGroupType::Checkable => 2u32,
        }
    }

    /// The variant that a libobs value stands for, if any.
    pub open spec fn spec_from_raw(value: u32) -> Option<ObsGroupType> {
        if value == 0u32 {
            Some(ObsGroupType::Invalid)
        } else if value == 1u32 {
            Some(ObsGroupType::Normal)
        } else if value == 2u32 {
            Some(ObsGroupType::Checkable)
        } else {
            None
        }
    }

    /// Returns the numeric value that libobs uses for this variant.
    pub fn to_raw(self) -> (r: u32)
        ensures
            r == self.spec_raw(),
    {
        match self {
            ObsGroupType::Invalid => 0,
            ObsGroupType::Normal => 1,
            ObsGroupType::Checkable => 2,
        }
    }

    /// Converts a libobs value back into a variant; `None` when no variant has it.
    pub fn from_raw(value: u32) -> (r: Option<ObsGroupType>)
        ensures
            r == ObsGroupType::spec_from_raw(value),
    {
        if value == 0 {
            Some(ObsGroupType::Invalid)
        } else if value == 1 {
            Some(ObsGroupType::Normal)
        } else if value == 2 {
            Some(ObsGroupType::Checkable)
        } else {
            None
        }
    }

    /// The variant's name, as its `Debug` output shows it.
    pub open spec fn spec_name(self) -> Seq<char> {
        match self {
            ObsGroupType::Invalid => "Invalid"@,
            ObsGroupType::Normal => "Normal"@,
            ObsGroupType::Checkable => "Checkable"@,
        }
    }

    /// Returns the variant's name.
    pub fn name(self) -> (r: &'static str)
        ensures
            r@ == self.spec_name(),
    {
        match self {
            ObsGroupType::Invalid => "Invalid",
            ObsGroupType::Normal => "Normal",
            ObsGroupType::Checkable => "Checkable",
        }
    }
}

/// Turning a ObsGroupType into its libobs value and back gives the same variant,
/// and a libobs value is only ever read back as the variant that has that value.
pub proof fn lemma_group_type_raw_roundtrip(e: ObsGroupType, value: u32)
    ensures
        ObsGroupType::spec_from_raw(e.spec_raw()) == Some(e),
        ObsGroupType::spec_from_raw(value) matches Some(f) ==> f.spec_raw() == value,
{
}

/// The kind of a button property.
#[derive(Clone, Copy, Debug, PartialEq, Eq, Structural)]
pub enum ObsButtonType {
    Default,
    Url,
}

impl ObsButtonType {
    /// The numeric value that libobs uses for this variant.
    pub open spec fn spec_raw(self) -> u32 {
        match self {
            ObsButtonType::Default => 0u32,
            ObsButtonType::Url => 1u32,
        }
    }

    /// The variant that a libobs value stands for, if any.
    pub open spec fn spec_from_raw(value: u32) -> Option<ObsButtonType> {
        if value == 0u32 {
            Some(ObsButtonType::Default)
        } else if value == 1u32 {
            Some(ObsButtonType::Url)
        } else {
            None
        }
    }

    /// Returns the numeric value that libobs uses for this variant.
    pub fn to_raw(self) -> (r: u32)
        ensures
            r == self.spec_raw(),
    {
        match self {
            ObsButtonType::Default => 0,
            ObsButtonType::Url => 1,
        }
    }

    /// Converts a libobs value back into a variant; `None` when no variant has it.
    pub fn from_raw(value: u32) -> (r: Option<ObsButtonType>)
        ensures
            r == ObsButtonType::spec_from_raw(value),
    {
        if value == 0 {
            Some(ObsButtonType::Default)
        } else if value == 1 {
            Some(ObsButtonType::Url)
        } else {
            None
        }
    }

    /// The variant's name, as its `Debug` output shows it.
    pub open spec fn spec_name(self) -> Seq<char> {
        match self {
            ObsButtonType::Default => "Default"@,
            ObsButtonType::Url => "Url"@,
        }
    }

    /// Returns the variant's name.
    pub fn name(self) -> (r: &'static str)
        ensures
            r@ == self.spec_name(),
    {
        match self {
            ObsButtonType::Default => "Default",
            ObsButtonType::Url => "Url",
        }
    }
}

/// Turning a ObsButtonType into its libobs value and back gives the same variant,
/// and a libobs value is only ever read back as the variant that has that value.
pub proof fn lemma_button_type_raw_roundtrip(e: ObsButtonType, value: u32)
    ensures
        ObsButtonType::spec_from_raw(e.spec_raw()) == Some(e),
        ObsButtonType::spec_from_raw(value) matches Some(f) ==> f.spec_raw() == value,
{
}
} // verus!

verus! {

/// A text that libobs reported for a property, kept only when it is not empty.
pub fn optional_text(text: Option<String>) -> (r: Option<String>)
    ensures
        text is None ==> r is None,
        text matches Some(t) ==> (if t@.len() == 0 {
            r is None
        } else {
            r == Some(t)
        }),
{
    match text {
        None => None,
        Some(t) => {
            if t.as_str().unicode_len() == 0 {
                None
            } else {
                Some(t)
            }
        },
    }
}

/// The values of `ObsPropertyType` are libobs's `obs_property_type` constants,
/// variant by variant, in both directions.
pub proof fn lemma_property_type_libobs_values()
    ensures
        ObsPropertyType::Invalid.spec_raw() == 0,
        ObsPropertyType::spec_from_raw(0u32) == Some(ObsPropertyType::Invalid),
        ObsPropertyType::Bool.spec_raw() == 1,
        ObsPropertyType::spec_from_raw(1u32) == Some(ObsPropertyType::Bool),
        ObsPropertyType::Int.spec_raw() == 2,
        ObsPropertyType::spec_from_raw(2u32) == Some(ObsPropertyType::Int),
        ObsPropertyType::Float.spec_raw() == 3,
        ObsPropertyType::spec_from_raw(3u32) == Some(ObsPropertyType::Float),
        ObsPropertyType::Text.spec_raw() == 4,
        ObsPropertyType::spec_from_raw(4u32) == Some(ObsPropertyType::Text),
        ObsPropertyType::Path.spec_raw() == 5,
        ObsPropertyType::spec_from_raw(5u32) == Some(ObsPropertyType::Path),
        ObsPropertyType::List.spec_raw() == 6,
        ObsPropertyType::spec_from_raw(6u32) == Some(ObsPropertyType::List),
        ObsPropertyType::Color.spec_raw() == 7,
        ObsPropertyType::spec_from_raw(7u32) == Some(ObsPropertyType::Color),
        ObsPropertyType::Button.spec_raw() == 8,
        ObsPropertyType::spec_from_raw(8u32) == Some(ObsPropertyType::Button),
        ObsPropertyType::Font.spec_raw() == 9,
        ObsPropertyType::spec_from_raw(9u32) == Some(ObsPropertyType::Font),
        ObsPropertyType::EditableList.spec_raw() == 10,
        ObsPropertyType::spec_from_raw(10u32) == Some(ObsPropertyType::EditableList),
        ObsPropertyType::FrameRate.spec_raw() == 11,
        ObsPropertyType::spec_from_raw(11u32) == Some(ObsPropertyType::FrameRate),
        ObsPropertyType::Group.spec_raw() == 12,
        ObsPropertyType::spec_from_raw(12u32) == Some(ObsPropertyType::Group),
        ObsPropertyType::ColorAlpha.spec_raw() == 13,
        ObsPropertyType::spec_from_raw(13u32) == Some(ObsPropertyType::ColorAlpha),
{
}

/// The values of `ObsComboFormat` are libobs's `obs_combo_format` constants,
/// variant by variant, in both directions.
pub proof fn lemma_combo_format_libobs_values()
    ensures
        ObsComboFormat::Invalid.spec_raw() == 0,
        ObsComboFormat::spec_from_raw(0u32) == Some(ObsComboFormat::Invalid),
        ObsComboFormat::Int.spec_raw() == 1,
        ObsComboFormat::spec_from_raw(1u32) == Some(ObsComboFormat::Int),
        ObsComboFormat::Float.spec_raw() == 2,
        ObsComboFormat::spec_from_raw(2u32) == Some(ObsComboFormat::Float),
        ObsComboFormat::String.spec_raw() == 3,
        ObsComboFormat::spec_from_raw(3u32) == Some(ObsComboFormat::String),
        ObsComboFormat::Bool.spec_raw() == 4,
        ObsComboFormat::spec_from_raw(4u32) == Some(ObsComboFormat::Bool),
{
}

/// The values of `ObsComboType` are libobs's `obs_combo_type` constants,
/// variant by variant, in both directions.
pub proof fn lemma_combo_type_libobs_values()
    ensures
        ObsComboType::Invalid.spec_raw() == 0,
        ObsComboType::spec_from_raw(0u32) == Some(ObsComboType::Invalid),
        ObsComboType::Editable.spec_raw() == 1,
        ObsComboType::spec_from_raw(1u32) == Some(ObsComboType::Editable),
        ObsComboType::List.spec_raw() == 2,
        ObsComboType::spec_from_raw(2u32) == Some(ObsComboType::List),
        ObsComboType::Radio.spec_raw() == 3,
        ObsComboType::spec_from_raw(3u32) == Some(ObsComboType::Radio),
{
}

/// The values of `ObsTextType` are libobs's `obs_text_type` constants,
/// variant by variant, in both directions.
pub proof fn lemma_text_type_libobs_values()
    ensures
        ObsTextType::Default.spec_raw() == 0,
        ObsTextType::spec_from_raw(0u32) == Some(ObsTextType::Default),
        ObsTextType::Password.spec_raw() == 1,
        ObsTextType::spec_from_raw(1u32) == Some(ObsTextType::Password),
        ObsTextType::Multiline.spec_raw() == 2,
        ObsTextType::spec_from_raw(2u32) == Some(ObsTextType::Multiline),
        ObsTextType::Info.spec_raw() == 3,
        ObsTextType::spec_from_raw(3u32) == Some(ObsTextType::Info),
{
}

/// The values of `ObsTextInfoType` are libobs's `obs_text_info_type` constants,
/// variant by variant, in both directions.
pub proof fn lemma_text_info_type_libobs_values()
    ensures
        ObsTextInfoType::Normal.spec_raw() == 0,
        ObsTextInfoType::spec_from_raw(0u32) == Some(ObsTextInfoType::Normal),
        ObsTextInfoType::Warning.spec_raw() == 1,
        ObsTextInfoType::spec_from_raw(1u32) == Some(ObsTextInfoType::Warning),
        ObsTextInfoType::Error.spec_raw() == 2,
        ObsTextInfoType::spec_from_raw(2u32) == Some(ObsTextInfoType::Error),
{
}

/// The values of `ObsNumberType` are libobs's `obs_number_type` constants,
/// variant by variant, in both directions.
pub proof fn lemma_number_type_libobs_values()
    ensures
        ObsNumberType::Scroller.spec_raw() == 0,
        ObsNumberType::spec_from_raw(0u32) == Some(ObsNumberType::Scroller),
        ObsNumberType::Slider.spec_raw() == 1,
        ObsNumberType::spec_from_raw(1u32) == Some(ObsNumberType::Slider),
{
}

/// The values of `ObsPathType` are libobs's `obs_path_type` constants,
/// variant by variant, in both directions.
pub proof fn lemma_path_type_libobs_values()
    ensures
        ObsPathType::File.spec_raw() == 0,
        ObsPathType::spec_from_raw(0u32) == Some(ObsPathType::File),
        ObsPathType::FileSave.spec_raw() == 1,
        ObsPathType::spec_from_raw(1u32) == Some(ObsPathType::FileSave),
        ObsPathType::Directory.spec_raw() == 2,
        ObsPathType::spec_from_raw(2u32) == Some(ObsPathType::Directory),
{
}

/// The values of `ObsEditableListType` are libobs's `obs_editable_list_type` constants,
/// variant by variant, in both directions.
pub proof fn lemma_editable_list_type_libobs_values()
    ensures
        ObsEditableListType::Strings.spec_raw() == 0,
        ObsEditableListType::spec_from_raw(0u32) == Some(ObsEditableListType::Strings),
        ObsEditableListType::Files.spec_raw() == 1,
        ObsEditableListType::spec_from_raw(1u32) == Some(ObsEditableListType::Files),
        ObsEditableListType::FilesAndUrls.spec_raw() == 2,
        ObsEditableListType::spec_from_raw(2u32) == Some(ObsEditableListType::FilesAndUrls),
{
}

/// The values of `ObsGroupType` are libobs's `obs_group_type` constants,
/// variant by variant, in both directions.
pub proof fn lemma_group_type_libobs_values()
    ensures
        ObsGroupType::Invalid.spec_raw() == 0,
        ObsGroupType::spec_from_raw(0u32) == Some(ObsGroupType::Invalid),
        ObsGroupType::Normal.spec_raw() == 1,
        ObsGroupType::spec_from_raw(1u32) == Some(ObsGroupType::Normal),
        ObsGroupType::Checkable.spec_raw() == 2,
        ObsGroupType::spec_from_raw(2u32) == Some(ObsGroupType::Checkable),
{
}

/// The values of `ObsButtonType` are libobs's `obs_button_type` constants,
/// variant by variant, in both directions.
pub proof fn lemma_button_type_libobs_values()
    ensures
        ObsButtonType::Default.spec_raw() == 0,
        ObsButtonType::spec_from_raw(0u32) == Some(ObsButtonType::Default),
        ObsButtonType::Url.spec_raw() == 1,
        ObsButtonType::spec_from_raw(1u32) == Some(ObsButtonType::Url),
{
}

/// Each variant of `ObsPropertyType` is named by its own identifier.
pub proof fn lemma_property_type_names()
    ensures
        ObsPropertyType::Invalid.spec_name() == "Invalid"@,
        ObsPropertyType::Bool.spec_name() == "Bool"@,
        ObsPropertyType::Int.spec_name() == "Int"@,
        ObsPropertyType::Float.spec_name() == "Float"@,
        ObsPropertyType::Text.spec_name() == "Text"@,
        ObsPropertyType::Path.spec_name() == "Path"@,
        ObsPropertyType::List.spec_name() == "List"@,
        ObsPropertyType::Color.spec_name() == "Color"@,
        ObsPropertyType::Button.spec_name() == "Button"@,
        ObsPropertyType::Font.spec_name() == "Font"@,
        ObsPropertyType::EditableList.spec_name() == "EditableList"@,
        ObsPropertyType::FrameRate.spec_name() == "FrameRate"@,
        ObsPropertyType::Group.spec_name() == "Group"@,
        ObsPropertyType::ColorAlpha.spec_name() == "ColorAlpha"@,
{
}

/// Each variant of `ObsComboFormat` is named by its own identifier.
pub proof fn lemma_combo_format_names()
    ensures
        ObsComboFormat::Invalid.spec_name() == "Invalid"@,
        ObsComboFormat::Int.spec_name() == "Int"@,
        ObsComboFormat::Float.spec_name() == "Float"@,
        ObsComboFormat::String.spec_name() == "String"@,
        ObsComboFormat::Bool.spec_name() == "Bool"@,
{
}

/// Each variant of `ObsComboType` is named by its own identifier.
pub proof fn lemma_combo_type_names()
    ensures
        ObsComboType::Invalid.spec_name() == "Invalid"@,
        ObsComboType::Editable.spec_name() == "Editable"@,
        ObsComboType::List.spec_name() == "List"@,
        ObsComboType::Radio.spec_name() == "Radio"@,
{
}

/// Each variant of `ObsTextType` is named by its own identifier.
pub proof fn lemma_text_type_names()
    ensures
        ObsTextType::Default.spec_name() == "Default"@,
        ObsTextType::Password.spec_name() == "Password"@,
        ObsTextType::Multiline.spec_name() == "Multiline"@,
        ObsTextType::Info.spec_name() == "Info"@,
{
}

/// Each variant of `ObsTextInfoType` is named by its own identifier.
pub proof fn lemma_text_info_type_names()
    ensures
        ObsTextInfoType::Normal.spec_name() == "Normal"@,
        ObsTextInfoType::Warning.spec_name() == "Warning"@,
        ObsTextInfoType::Error.spec_name() == "Error"@,
{
}

/// Each variant of `ObsNumberType` is named by its own identifier.
pub proof fn lemma_number_type_names()
    ensures
        ObsNumberType::Scroller.spec_name() == "Scroller"@,
        ObsNumberType::Slider.spec_name() == "Slider"@,
{
}

/// Each variant of `ObsPathType` is named by its own identifier.
pub proof fn lemma_path_type_names()
    ensures
        ObsPathType::File.spec_name() == "File"@,
        ObsPathType::FileSave.spec_name() == "FileSave"@,
        ObsPathType::Directory.spec_name() == "Directory"@,
{
}

/// Each variant of `ObsEditableListType` is named by its own identifier.
pub proof fn lemma_editable_list_type_names()
    ensures
        ObsEditableListType::Strings.spec_name() == "Strings"@,
        ObsEditableListType::Files.spec_name() == "Files"@,
        ObsEditableListType::FilesAndUrls.spec_name() == "FilesAndUrls"@,
{
}

/// Each variant of `ObsGroupType` is named by its own identifier.
pub proof fn lemma_group_type_names()
    ensures
        ObsGroupType::Invalid.spec_name() == "Invalid"@,
        ObsGroupType::Normal.spec_name() == "Normal"@,
        ObsGroupType::Checkable.spec_name() == "Checkable"@,
{
}

/// Each variant of `ObsButtonType` is named by its own identifier.
pub proof fn lemma_button_type_names()
    ensures
        ObsButtonType::Default.spec_name() == "Default"@,
        ObsButtonType::Url.spec_name() == "Url"@,
{
}

} // verus!
