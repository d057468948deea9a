use vstd::prelude::*;

verus! {

/// Which typeface text is set in: the built-in default, one loaded from a font
/// file, or one found by its family name.
#[derive(Clone, PartialEq, Eq, Debug)]
pub enum Typeface {
    Default,
    File(String),
    Name(String),
}

/// A `Typeface` with its path or name as characters.
pub enum TypefaceView {
    Default,
    File(Seq<char>),
    Name(Seq<char>),
}

impl View for Typeface {
    type V = TypefaceView;

    open spec fn view(&self) -> TypefaceView {
        match self {
            Typeface::Default => TypefaceView::Default,
            Typeface::File(path) => TypefaceView::File(path@),
            Typeface::Name(name) => TypefaceView::Name(name@),
        }
    }
}

impl Typeface {
    /// A copy of this choice.
    pub fn duplicate(&self) -> (copy: Typeface)
        ensures
            copy@ == self@,
    {
        match self {
            Typeface::Default => Typeface::Default,
            Typeface::File(path) => Typeface::File(path.clone()),
            Typeface::Name(name) => Typeface::Name(name.clone()),
        }
    }
}

} // verus!
