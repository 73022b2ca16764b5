//! Where a JSON document can fall short of the shape of a model list.

use crate::decimal::{decimal, decimal_string};
use crate::text::framed;
use vstd::prelude::*;
use vstd::string::StringExecFns;

verus! {

/// A member of the object that describes a model, or of its `details`.
#[derive(Debug, Clone, Copy, PartialEq, Eq)]
pub enum Field {
    Name,
    Model,
    ModifiedAt,
    Size,
    Digest,
    Details,
    ParentModel,
    Format,
    Family,
    Families,
    ParameterSize,
    QuantizationLevel,
}

impl Field {
    /// The key under which the member stands in its object.
    pub open spec fn key(self) -> Seq<char> {
        match self {
            Field::Name => "name"@,
            Field::Model => "model"@,
            Field::ModifiedAt => "modified_at"@,
            Field::Size => "size"@,
            Field::Digest => "digest"@,
            Field::Details => "details"@,
            Field::ParentModel => "parent_model"@,
            Field::Format => "format"@,
            Field::Family => "family"@,
            Field::Families => "families"@,
            Field::ParameterSize => "parameter_size"@,
            Field::QuantizationLevel => "quantization_level"@,
        }
    }

    /// The way from a model's object to the member.
    pub open spec fn trail(self) -> Seq<char> {
        match self {
            Field::Name => ".name"@,
            Field::Model => ".model"@,
            Field::ModifiedAt => ".modified_at"@,
            Field::Size => ".size"@,
            Field::Digest => ".digest"@,
            Field::Details => ".details"@,
            Field::ParentModel => ".details.parent_model"@,
            Field::Format => ".details.format"@,
            Field::Family => ".details.family"@,
            Field::Families => ".details.families"@,
            Field::ParameterSize => ".details.parameter_size"@,
            Field::QuantizationLevel => ".details.quantization_level"@,
        }
    }

    /// Returns the key under which the member stands in its object.
    pub fn name(&self) -> (key: &'static str)
        ensures
            key@ == self.key(),
    {
        match self {
            Field::Name => "name",
            Field::Model => "model",
            Field::ModifiedAt => "modified_at",
            Field::Size => "size",
            Field::Digest => "digest",
            Field::Details => "details",
            Field::ParentModel => "parent_model",
            Field::Format => "format",
            Field::Family => "family",
            Field::Families => "families",
            Field::ParameterSize => "parameter_size",
            Field::QuantizationLevel => "quantization_level",
        }
    }

    fn trail_text(&self) -> (trail: &'static str)
        ensures
            trail@ == self.trail(),
    {
        match self {
            Field::Name => ".name",
            Field::Model => ".model",
            Field::ModifiedAt => ".modified_at",
            Field::Size => ".size",
            Field::Digest => ".digest",
            Field::Details => ".details",
            Field::ParentModel => ".details.parent_model",
            Field::Format => ".details.format",
            Field::Family => ".details.family",
            Field::Families => ".details.families",
            Field::ParameterSize => ".details.parameter_size",
            Field::QuantizationLevel => ".details.quantization_level",
        }
    }
}

/// A place in the document.
#[derive(Debug, Clone, Copy, PartialEq, Eq)]
pub enum Place {
    /// The document itself.
    Document,
    /// The member `models` of the document.
    Models,
    /// An entry of `models`, counted from zero.
    Entry(usize),
    /// A member of an entry of `models`.
    Member(usize, Field),
}

impl Place {
    /// The place, written as a path.
    pub open spec fn path(self) -> Seq<char> {
        match self {
            Place::Document => "document"@,
            Place::Models => "models"@,
            Place::Entry(i) => "models["@ + decimal(i as nat) + "]"@,
            Place::Member(i, field) => "models["@ + decimal(i as nat) + "]"@ + field.trail(),
        }
    }

    /// Writes the place as a path.
    pub fn path_text(&self) -> (path: String)
        ensures
            path@ == self.path(),
    {
        match self {
            Place::Document => String::from_str("document"),
            Place::Models => String::from_str("models"),
            Place::Entry(i) => {
                let index: String = decimal_string(*i as u64);
                framed("models[", index.as_str(), "]")
            },
            Place::Member(i, field) => {
                let index: String = decimal_string(*i as u64);
                framed("models[", index.as_str(), "]").concat(field.trail_text())
            },
        }
    }
}

/// What is wrong at a place.
#[derive(Debug, Clone, Copy, PartialEq, Eq)]
pub enum Fault {
    /// A member that must be there is not.
    Missing,
    /// A value is there, of another type than the shape asks for.
    Mistyped,
}

/// The first place at which a document falls short of the shape, and how.
#[derive(Debug, Clone, Copy, PartialEq, Eq)]
pub struct ShapeError {
    /// Where the document falls short.
    pub place: Place,
    /// What is wrong there.
    pub fault: Fault,
}

impl ShapeError {
    /// What the error says.
    pub open spec fn words(self) -> Seq<char> {
        match self.fault {
            Fault::Missing => "missing field `"@ + self.place.path() + "`"@,
            Fault::Mistyped => "invalid type at `"@ + self.place.path() + "`"@,
        }
    }

    /// Words the error.
    pub fn message(&self) -> (text: String)
        ensures
            text@ == self.words(),
    {
        let path: String = self.place.path_text();
        match self.fault {
            Fault::Missing => framed("missing field `", path.as_str(), "`"),
            Fault::Mistyped => framed("invalid type at `", path.as_str(), "`"),
        }
    }
}

/// Why a body could not be read as a model list.
#[derive(Debug, Clone, PartialEq, Eq)]
pub enum DecodeError {
    /// The body is not JSON; the parser's complaint is kept.
    Syntax(String),
    /// The body is JSON of another shape.
    Shape(ShapeError),
}

/// A [`DecodeError`] as mathematical values.
pub enum DecodeErrorView {
    Syntax(Seq<char>),
    Shape(ShapeError),
}

impl View for DecodeError {
    type V = DecodeErrorView;

    open spec fn view(&self) -> DecodeErrorView {
        match self {
            DecodeError::Syntax(complaint) => DecodeErrorView::Syntax(complaint@),
            DecodeError::Shape(e) => DecodeErrorView::Shape(*e),
        }
    }
}

impl DecodeErrorView {
    /// What the error says.
    pub open spec fn words(self) -> Seq<char> {
        match self {
            DecodeErrorView::Syntax(complaint) => complaint,
            DecodeErrorView::Shape(e) => e.words(),
        }
    }
}

impl DecodeError {
    /// Words the error.
    pub fn message(&self) -> (text: String)
        ensures
            text@ == self@.words(),
    {
        match self {
            DecodeError::Syntax(complaint) => complaint.clone(),
            DecodeError::Shape(e) => e.message(),
        }
    }
}

} // verus!
