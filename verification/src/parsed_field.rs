//! One named field of the record, as the engines see it: its documentation
//! comments (copied verbatim onto every emitted accessor), its option layers,
//! its bare name and its declared type.

use vstd::prelude::*;

use crate::options::{FieldOptions, FieldOptionsView, TypeExpr, TypeExprView, str_views};

verus! {

/// A named field together with its accessor configuration.
#[derive(Debug, PartialEq, Eq)]
pub struct ParsedField {
    pub comments: Vec<String>,
    pub opts: FieldOptions,
    pub ident: String,
    pub ty: TypeExpr,
}

/// Mathematical model of [`ParsedField`].
#[verifier::ext_equal]
pub struct ParsedFieldView {
    pub comments: Seq<Seq<char>>,
    pub opts: FieldOptionsView,
    pub ident: Seq<char>,
    pub ty: TypeExprView,
}

impl View for ParsedField {
    type V = ParsedFieldView;

    open spec fn view(&self) -> ParsedFieldView {
        ParsedFieldView {
            comments: str_views(self.comments@),
            opts: self.opts@,
            ident: self.ident@,
            ty: self.ty@,
        }
    }
}

} // verus!
