//! The objects of a page, and the dispatch on their type.
pub mod audio;
pub mod base;
pub mod header;
pub mod image;
pub mod line;
pub mod painting;
pub mod shape;
pub mod shape_base;
pub mod shared;
pub mod stroke;
pub mod table;
pub mod text;
pub mod text_core;
pub mod web;

use vstd::prelude::*;

use crate::byte_stream::{ByteStream, SpecRead, StreamModel, TryParse};
use crate::context::{DocumentContext, TryParseWithContext};
use crate::page::object::audio::{spec_audio, Audio, AudioModel, AudioParseError};
use crate::page::object::base::{spec_object_base, ObjectBase, ObjectBaseModel};
use crate::page::object::image::{image_model, spec_image, Image, ImageModel, ImageParseError};
use crate::page::object::line::{spec_line, Line, LineModel, LineParseError};
use crate::page::object::painting::{spec_painting, Painting, PaintingModel, PaintingParseError};
use crate::page::object::shape::{shape_model, spec_shape, Shape, ShapeModel, ShapeParseContext, ShapeParseError};
use crate::page::object::stroke::{spec_stroke, Stroke, StrokeModel, StrokeParseError};
use crate::page::object::table::{spec_table, table_model, Table, TableModel, TableParseError};
use crate::page::object::text::{spec_text, text_model, Text, TextModel, TextParseError};
use crate::page::object::web::{spec_web, Web, WebModel, WebParseError};
use crate::{spec_opaque_inclusive, OpaqueBytes, OpaqueBytesParseError};

verus! {

/// How deeply objects may be nested in the text of other objects. Deeper nesting is refused.
pub const NESTING_LIMIT: u32 = 64;

/// Failure to read an object whose kind is not read in detail.
#[derive(Debug)]
pub enum OpaqueObjectParseError {
    Base(crate::page::object::base::ObjectBaseParseError),
    Bytes(OpaqueBytesParseError),
}

/// An object of a kind that is not read in detail: its base, then its bytes.
#[derive(Debug)]
pub struct OpaqueObject {
    pub object_base: ObjectBase,
    pub inner: OpaqueBytes,
}

pub struct OpaqueObjectModel {
    pub object_base: ObjectBaseModel,
    pub inner: Seq<u8>,
}

impl View for OpaqueObject {
    type V = OpaqueObjectModel;

    open spec fn view(&self) -> OpaqueObjectModel {
        OpaqueObjectModel { object_base: self.object_base@, inner: self.inner@ }
    }
}

/// An object base, then a `u32` size that counts itself and the bytes that it counts.
pub open spec fn spec_opaque_object(s: StreamModel) -> SpecRead<OpaqueObjectModel> {
    match spec_object_base(s) {
        Some((object_base, s1)) => match spec_opaque_inclusive(s1) {
            Ok((inner, s2)) => Some((OpaqueObjectModel { object_base, inner }, s2)),
            Err(_) => None,
        },
        None => None,
    }
}

impl<'a> TryParse<ByteStream<'a>> for OpaqueObject {
    type ParseError = OpaqueObjectParseError;

    fn try_parse(reader: &mut ByteStream<'a>) -> (r: Result<OpaqueObject, OpaqueObjectParseError>)
        ensures
            match spec_opaque_object(old(reader)@) {
                Some((m, s2)) => r matches Ok(v) && v@ == m && final(reader)@ == s2,
                None => r is Err,
            },
            final(reader)@.same_frame(old(reader)@),
    {
        let object_base: ObjectBase = match ObjectBase::try_parse(reader) {
            Ok(v) => v,
            Err(e) => return Err(OpaqueObjectParseError::Base(e)),
        };
        let inner: OpaqueBytes = match OpaqueBytes::try_parse_inclusive(reader) {
            Ok(v) => v,
            Err(e) => return Err(OpaqueObjectParseError::Bytes(e)),
        };
        Ok(OpaqueObject { object_base, inner })
    }
}

/// Failure to read an object.
#[derive(Debug)]
pub enum DocObjectParseError {
    Image(ImageParseError),
    Line(LineParseError),
    Painting(PaintingParseError),
    Shape(ShapeParseError),
    Stroke(StrokeParseError),
    Table(TableParseError),
    Text(TextParseError),
    Voice(AudioParseError),
    Web(WebParseError),
    Opaque(OpaqueObjectParseError),
    /// The object type is not known.
    BadType(u8),
}

/// An object of a page or of a text.
#[derive(Debug)]
pub enum DocObject {
    /// `WCon_ObjectStroke`; extends `WCon_ObjectBase`
    Stroke(Box<Stroke>),
    /// `WCon_ObjectTextBoxOrImage` (variant 1) extends `WCon_ObjectShape` (`Shape`)
    Text(Box<Text>),
    /// `WCon_ObjectTextBoxOrImage` (variant 0) extends `WCon_ObjectShape` (`Shape`)
    Image(Box<Image>),
    /// `WCon_ObjectContainer`; extends `WCon_ObjectBase`
    Container(OpaqueObject),
    /// `WCon_ObjectShape`; extends `WCon_ObjectShapeBase`, which extends `WCon_ObjectBase`
    Shape(Box<Shape>),
    /// `WCon_ObjectLine`; extends `WCon_ObjectShapeBase` (see `Shape`)
    Line(Box<Line>),
    /// `WCon_ObjectVoice`; extends `WCon_ObjectBase`
    Audio(Box<Audio>),
    /// `WCon_ObjectFormula`; extends `WCon_ObjectBase`
    Formula(OpaqueObject),
    /// `WCon_ObjectTable`; extends `WCon_ObjectBase`
    Table(Box<Table>),
    /// `WCon_ObjectWeb`; extends `WCon_ObjectBase`
    Web(Box<Web>),
    /// `WCon_ObjectPainting`; extends `WCon_ObjectBase`
    Painting(Box<Painting>),
    /// `WCon_ObjectLink`; extends `WCon_ObjectBase`
    Link(OpaqueObject),
    /// `WCon_ObjectMath`; extends `WCon_ObjectBase`
    Maths(OpaqueObject),
    /// `WCon_ObjectPlot`; extends `WCon_ObjectBase`
    Plot(OpaqueObject),
    /// `WCon_ObjectUnknown`; extends `WCon_ObjectBase`
    Generic(OpaqueObject),
}

pub enum DocObjectModel {
    Stroke(StrokeModel),
    Text(TextModel),
    Image(ImageModel),
    Container(OpaqueObjectModel),
    Shape(ShapeModel),
    Line(LineModel),
    Audio(AudioModel),
    Formula(OpaqueObjectModel),
    Table(TableModel),
    Web(WebModel),
    Painting(PaintingModel),
    Link(OpaqueObjectModel),
    Maths(OpaqueObjectModel),
    Plot(OpaqueObjectModel),
    Generic(OpaqueObjectModel),
}

/// The model of an object whose text holds objects nested at most `depth` levels.
#[verifier::opaque]
pub open spec fn doc_object_model(d: &DocObject, depth: nat) -> DocObjectModel
    decreases depth, 9nat, 0nat,
{
    match d {
        DocObject::Stroke(x) => DocObjectModel::Stroke(x@),
        DocObject::Text(x) => DocObjectModel::Text(text_model(&**x, depth)),
        DocObject::Image(x) => DocObjectModel::Image(image_model(&**x, depth)),
        DocObject::Container(x) => DocObjectModel::Container(x@),
        DocObject::Shape(x) => DocObjectModel::Shape(shape_model(&**x, depth)),
        DocObject::Line(x) => DocObjectModel::Line(x@),
        DocObject::Audio(x) => DocObjectModel::Audio(x@),
        DocObject::Formula(x) => DocObjectModel::Formula(x@),
        DocObject::Table(x) => DocObjectModel::Table(table_model(&**x, depth)),
        DocObject::Web(x) => DocObjectModel::Web(x@),
        DocObject::Painting(x) => DocObjectModel::Painting(x@),
        DocObject::Link(x) => DocObjectModel::Link(x@),
        DocObject::Maths(x) => DocObjectModel::Maths(x@),
        DocObject::Plot(x) => DocObjectModel::Plot(x@),
        DocObject::Generic(x) => DocObjectModel::Generic(x@),
    }
}

/// The base of an object with model `m`.
pub open spec fn object_base_of(m: DocObjectModel) -> ObjectBaseModel {
    match m {
        DocObjectModel::Stroke(x) => x.object_base,
        DocObjectModel::Text(x) => x.shape.shape_base.object_base,
        DocObjectModel::Image(x) => x.shape.shape_base.object_base,
        DocObjectModel::Container(x) => x.object_base,
        DocObjectModel::Shape(x) => x.shape_base.object_base,
        DocObjectModel::Line(x) => x.shape_base.object_base,
        DocObjectModel::Audio(x) => x.object_base,
        DocObjectModel::Formula(x) => x.object_base,
        DocObjectModel::Table(x) => x.shape.shape_base.object_base,
        DocObjectModel::Web(x) => x.object_base,
        DocObjectModel::Painting(x) => x.object_base,
        DocObjectModel::Link(x) => x.object_base,
        DocObjectModel::Maths(x) => x.object_base,
        DocObjectModel::Plot(x) => x.object_base,
        DocObjectModel::Generic(x) => x.object_base,
    }
}

/// An object of type `t`: 1 stroke, 2 text box, 3 image, 7 (plain) shape, 8 line, 10 voice
/// memo, 13 web link, 14 painting, 22 table; the other known types (4 container, 11 formula,
/// 17 link, 19 generic, 20 plot, 21 maths) are read as opaque objects; any other type fails.
#[verifier::opaque]
pub open spec fn spec_doc_object(s: StreamModel, t: u8, depth: nat) -> SpecRead<DocObjectModel>
    decreases depth, 9nat, 0nat,
{
    if t == 1 {
        match spec_stroke(s) {
            Some((m, s2)) => Some((DocObjectModel::Stroke(m), s2)),
            None => None,
        }
    } else if t == 2 {
        match spec_text(s, depth) {
            Some((m, s2)) => Some((DocObjectModel::Text(m), s2)),
            None => None,
        }
    } else if t == 3 {
        match spec_image(s, depth) {
            Some((m, s2)) => Some((DocObjectModel::Image(m), s2)),
            None => None,
        }
    } else if t == 7 {
        match spec_shape(s, true, depth) {
            Some((m, s2)) => Some((DocObjectModel::Shape(m), s2)),
            None => None,
        }
    } else if t == 8 {
        match spec_line(s) {
            Some((m, s2)) => Some((DocObjectModel::Line(m), s2)),
            None => None,
        }
    } else if t == 10 {
        match spec_audio(s) {
            Some((m, s2)) => Some((DocObjectModel::Audio(m), s2)),
            None => None,
        }
    } else if t == 13 {
        match spec_web(s) {
            Some((m, s2)) => Some((DocObjectModel::Web(m), s2)),
            None => None,
        }
    } else if t == 14 {
        match spec_painting(s) {
            Some((m, s2)) => Some((DocObjectModel::Painting(m), s2)),
            None => None,
        }
    } else if t == 22 {
        match spec_table(s, depth) {
            Some((m, s2)) => Some((DocObjectModel::Table(m), s2)),
            None => None,
        }
    } else {
        match spec_opaque_object(s) {
            Some((o, s2)) => if t == 4 {
                Some((DocObjectModel::Container(o), s2))
            } else if t == 11 {
                Some((DocObjectModel::Formula(o), s2))
            } else if t == 17 {
                Some((DocObjectModel::Link(o), s2))
            } else if t == 19 {
                Some((DocObjectModel::Generic(o), s2))
            } else if t == 20 {
                Some((DocObjectModel::Plot(o), s2))
            } else if t == 21 {
                Some((DocObjectModel::Maths(o), s2))
            } else {
                None
            },
            None => None,
        }
    }
}

/// What parsing an object needs: its type and the document.
#[derive(Clone, Copy)]
pub struct DocObjectParseContext<'fr, 'sr> {
    pub object_type: u8,
    pub doc_ctx: DocumentContext<'fr, 'sr>,
}

impl DocObject {
    /// Reads an object of type `ctx.object_type` whose text may hold objects nested `depth`
    /// more levels.
    #[verifier::rlimit(100)]
    #[verifier::spinoff_prover]
    pub fn parse_nested(stream: &mut ByteStream, ctx: &DocObjectParseContext, depth: u32) -> (r: Result<DocObject, DocObjectParseError>)
        ensures
            match spec_doc_object(old(stream)@, ctx.object_type, depth as nat) {
                Some((m, s2)) => r matches Ok(v) && doc_object_model(&v, depth as nat) == m && final(stream)@ == s2,
                None => r is Err,
            },
            final(stream)@.same_frame(old(stream)@),
        decreases depth, 9nat,
    {
        proof {
            reveal(doc_object_model);
            reveal(spec_doc_object);
        }
        let t: u8 = ctx.object_type;
        if t == 1 {
            match Stroke::try_parse(stream) {
                Ok(v) => Ok(DocObject::Stroke(Box::new(v))),
                Err(e) => Err(DocObjectParseError::Stroke(e)),
            }
        } else if t == 2 {
            match Text::parse_nested(stream, &ctx.doc_ctx, depth) {
                Ok(v) => Ok(DocObject::Text(Box::new(v))),
                Err(e) => Err(DocObjectParseError::Text(e)),
            }
        } else if t == 3 {
            match Image::parse_nested(stream, &ctx.doc_ctx, depth) {
                Ok(v) => Ok(DocObject::Image(Box::new(v))),
                Err(e) => Err(DocObjectParseError::Image(e)),
            }
        } else if t == 7 {
            match Shape::parse_nested(stream, &ShapeParseContext { is_shape_only: true, doc_ctx: ctx.doc_ctx }, depth) {
                Ok(v) => Ok(DocObject::Shape(Box::new(v))),
                Err(e) => Err(DocObjectParseError::Shape(e)),
            }
        } else if t == 8 {
            match Line::try_parse(stream) {
                Ok(v) => Ok(DocObject::Line(Box::new(v))),
                Err(e) => Err(DocObjectParseError::Line(e)),
            }
        } else if t == 10 {
            match Audio::try_parse(stream) {
                Ok(v) => Ok(DocObject::Audio(Box::new(v))),
                Err(e) => Err(DocObjectParseError::Voice(e)),
            }
        } else if t == 13 {
            match Web::try_parse(stream) {
                Ok(v) => Ok(DocObject::Web(Box::new(v))),
                Err(e) => Err(DocObjectParseError::Web(e)),
            }
        } else if t == 14 {
            match Painting::try_parse(stream) {
                Ok(v) => Ok(DocObject::Painting(Box::new(v))),
                Err(e) => Err(DocObjectParseError::Painting(e)),
            }
        } else if t == 22 {
            match Table::parse_nested(stream, &ctx.doc_ctx, depth) {
                Ok(v) => Ok(DocObject::Table(Box::new(v))),
                Err(e) => Err(DocObjectParseError::Table(e)),
            }
        } else {
            let object: OpaqueObject = match OpaqueObject::try_parse(stream) {
                Ok(v) => v,
                Err(e) => return Err(DocObjectParseError::Opaque(e)),
            };
            if t == 4 {
                Ok(DocObject::Container(object))
            } else if t == 11 {
                Ok(DocObject::Formula(object))
            } else if t == 17 {
                Ok(DocObject::Link(object))
            } else if t == 19 {
                Ok(DocObject::Generic(object))
            } else if t == 20 {
                Ok(DocObject::Plot(object))
            } else if t == 21 {
                Ok(DocObject::Maths(object))
            } else {
                Err(DocObjectParseError::BadType(t))
            }
        }
    }

    /// The base of this object.
    pub fn object_base(&self) -> (r: &ObjectBase)
        ensures
            forall|depth: nat| r@ == #[trigger] object_base_of(doc_object_model(self, depth)),
    {
        proof {
            reveal(doc_object_model);
            reveal(text_model);
            reveal(image_model);
            reveal(shape_model);
            reveal(table_model);
        }
        match self {
            DocObject::Line(x) => x.object_base(),
            DocObject::Shape(x) => x.object_base(),
            DocObject::Stroke(x) => x.object_base(),
            DocObject::Text(x) => x.object_base(),
            DocObject::Image(x) => x.object_base(),
            DocObject::Audio(x) => x.object_base(),
            DocObject::Web(x) => x.object_base(),
            DocObject::Painting(x) => x.object_base(),
            DocObject::Container(x) => &x.object_base,
            DocObject::Formula(x) => &x.object_base,
            DocObject::Table(x) => x.object_base(),
            DocObject::Link(x) => &x.object_base,
            DocObject::Maths(x) => &x.object_base,
            DocObject::Plot(x) => &x.object_base,
            DocObject::Generic(x) => &x.object_base,
        }
    }
}

impl<'a, 'fr, 'sr> TryParseWithContext<ByteStream<'a>, DocObjectParseContext<'fr, 'sr>> for DocObject {
    type ParseError = DocObjectParseError;

    fn try_parse_with_ctx(stream: &mut ByteStream<'a>, ctx: &DocObjectParseContext<'fr, 'sr>) -> (r: Result<DocObject, DocObjectParseError>)
        ensures
            match spec_doc_object(old(stream)@, ctx.object_type, NESTING_LIMIT as nat) {
                Some((m, s2)) => r matches Ok(v) && doc_object_model(&v, NESTING_LIMIT as nat) == m && final(stream)@ == s2,
                None => r is Err,
            },
            final(stream)@.same_frame(old(stream)@),
    {
        DocObject::parse_nested(stream, ctx, NESTING_LIMIT)
    }
}

} // verus!
