//! The board on which the plants evolve.
//!
//! A board is a rectangle of `width * height` cells stored row by row. Every
//! field of the board holds one value per cell, and the constructor of
//! [`Fields`] is the only place where that is checked.

use vstd::prelude::*;
use vstd::slice::slice_to_vec;

verus! {

/// The size of the board: its width and its height, in cells.
///
/// Either may be zero, which gives a board without cells. A size is fixed
/// once it is made and is copied wherever it is needed.
#[derive(Clone, Copy, Debug, PartialEq)]
pub struct Size {
    /// The width of the board
    w: usize,
    /// The height of the board
    h: usize,
}

impl Size {
    /// The size of `w` by `h` cells.
    pub closed spec fn spec_new(w: usize, h: usize) -> Size {
        Size { w, h }
    }

    /// The width, in cells.
    pub closed spec fn width(self) -> nat {
        self.w as nat
    }

    /// The height, in cells.
    pub closed spec fn height(self) -> nat {
        self.h as nat
    }

    /// The number of cells of the board. It is the exact product, which for
    /// very large sizes is more than a `usize` holds.
    pub open spec fn cells(self) -> nat {
        self.width() * self.height()
    }

    /// The length of one row, by which a step in the y direction moves
    /// through a field.
    pub closed spec fn spec_stride(&self) -> usize {
        self.w
    }

    /// The place of the cell `(x, y)` in a field: rows lie one after another.
    pub open spec fn index_of(self, x: nat, y: nat) -> nat {
        y * (self.spec_stride() as nat) + x
    }

    /// Creates a size of `w` by `h` cells.
    #[verifier::when_used_as_spec(spec_new)]
    pub fn new(w: usize, h: usize) -> (s: Self)
        ensures
            s == Size::spec_new(w, h),
            s.width() == w,
            s.height() == h,
    {
        Self { w, h }
    }

    /// Returns the size as the pair `(width, height)`.
    pub fn size(&self) -> (d: (usize, usize))
        ensures
            d.0 == self.width(),
            d.1 == self.height(),
    {
        (self.w, self.h)
    }

    /// Returns the number of cells on the board.
    ///
    /// The largest board this supports is one whose cells can be counted in
    /// a `usize`; [`Size::checked_len`] tells whether a size is within that.
    pub fn len(&self) -> (n: usize)
        requires
            self.cells() <= usize::MAX,
        ensures
            n == self.cells(),
    {
        self.w * self.h
    }

    /// Returns the number of cells on the board, or `None` where that number
    /// is more than a `usize` holds.
    pub fn checked_len(&self) -> (n: Option<usize>)
        ensures
            self.cells() <= usize::MAX ==> n == Some(self.cells() as usize),
            self.cells() > usize::MAX ==> n.is_none(),
    {
        self.w.checked_mul(self.h)
    }

    /// Gets the stride of the fields for moving in the y direction.
    #[verifier::when_used_as_spec(spec_stride)]
    pub fn stride(&self) -> (n: usize)
        ensures
            n == self.spec_stride(),
            n == self.width(),
    {
        self.w
    }

    /// A size made of a width and a height has their product as its number
    /// of cells, and the width as its stride.
    pub proof fn lemma_new_len_stride(w: usize, h: usize)
        ensures
            Size::new(w, h).width() == w,
            Size::new(w, h).height() == h,
            Size::new(w, h).cells() == w * h,
            Size::new(w, h).stride() == w,
    {
    }

    /// The stride of a size is its width, whatever its height.
    pub proof fn lemma_stride_is_width(self)
        ensures
            self.stride() == self.width(),
    {
    }

    /// Width and height are all there is to a size: two sizes that agree on
    /// both are the same size.
    pub proof fn lemma_same_dimensions(self, other: Size)
        requires
            self.width() == other.width(),
            self.height() == other.height(),
        ensures
            self == other,
    {
    }

    /// Every cell of the board has a place within a field of the board.
    pub proof fn lemma_index_in_bounds(self, x: nat, y: nat)
        requires
            x < self.width(),
            y < self.height(),
        ensures
            self.index_of(x, y) < self.cells(),
    {
        let w = self.width();
        let h = self.height();
        assert(y * w + w <= h * w) by (nonlinear_arith)
            requires
                y < h,
        ;
        assert(h * w == w * h) by (nonlinear_arith);
    }

    /// No two cells of the board share a place.
    pub proof fn lemma_index_injective(self, x1: nat, y1: nat, x2: nat, y2: nat)
        requires
            x1 < self.width(),
            x2 < self.width(),
            self.index_of(x1, y1) == self.index_of(x2, y2),
        ensures
            x1 == x2,
            y1 == y2,
    {
        let w = self.width();
        assert(y1 == y2) by (nonlinear_arith)
            requires
                x1 < w,
                x2 < w,
                y1 * w + x1 == y2 * w + x2,
        ;
    }
}

/// All the multipliers for the fields.
///
/// A multiplier says how strongly its field weighs on the growth of the
/// plants. It is kept as given.
#[derive(Clone, Copy, Debug, PartialEq)]
pub struct Multipliers {
    /// The multiplier for the light field
    pub light: u32,
}

impl Multipliers {
    /// Creates a new set of multipliers, with `light` for the light field.
    pub fn new(light: u32) -> (m: Self)
        ensures
            m.light == light,
    {
        Self { light }
    }
}

/// What went wrong when a set of fields could not be made.
#[derive(Clone, Debug, PartialEq)]
pub enum FieldCreateError {
    /// The field called `name` holds `len` values, which is not one for each
    /// cell of a board of size `size`.
    Size { name: String, len: usize, size: Size },
}

impl FieldCreateError {
    /// Whether this error says that the field `name`, of `len` values, does
    /// not fit a board of size `size`.
    pub open spec fn is_size(self, name: Seq<char>, len: nat, size: Size) -> bool {
        match self {
            FieldCreateError::Size { name: n, len: l, size: s } => {
                &&& n@ == name
                &&& l == len
                &&& s == size
            },
        }
    }
}

/// All the fields of a board, each with one value of type `T` per cell.
#[derive(Clone, Debug, PartialEq)]
pub struct Fields<T> {
    /// The size of the board that the fields cover
    pub size: Size,
    /// The relative value of the light, row by row
    pub light: Vec<T>,
}

impl<T> Fields<T> {
    /// Every field has exactly one value for each cell of the board.
    pub open spec fn well_formed(self) -> bool {
        self.light@.len() == self.size.cells()
    }

    /// In well-formed fields every cell of the board has its value: the
    /// place of a cell lies within each field.
    pub proof fn lemma_cell_has_value(self, x: nat, y: nat)
        requires
            self.well_formed(),
            x < self.size.width(),
            y < self.size.height(),
        ensures
            self.size.index_of(x, y) < self.light@.len(),
    {
        self.size.lemma_index_in_bounds(x, y);
    }
}

impl<T: Copy> Fields<T> {
    /// Creates a new set of fields for a board of size `size`, with a copy
    /// of `light` as the light field.
    ///
    /// # Errors
    ///
    /// `FieldCreateError::Size`, naming the field `"Light"`, if `light` does
    /// not hold exactly one value for each cell of the board.
    pub fn new(size: Size, light: &[T]) -> (r: Result<Self, FieldCreateError>)
        ensures
            light@.len() == size.cells() <==> r.is_ok(),
            r matches Ok(f) ==> f.size == size && f.light@ == light@ && f.well_formed(),
            r matches Err(e) ==> e.is_size("Light"@, light@.len(), size),
    {
        // Make sure the fields are the correct size
        if size.checked_len() != Some(light.len()) {
            return Err(FieldCreateError::Size { name: "Light".to_string(), len: light.len(), size });
        }
        let light = slice_to_vec(light);

        Ok(Self { size, light })
    }
}

/// Defines the board on which the plants evolve: the fields of the board
/// and the multipliers that weigh them.
#[derive(Clone, Debug, PartialEq)]
pub struct Board<T> {
    /// The multipliers for the fields
    pub multipliers: Multipliers,
    /// The fields of the board
    pub fields: Fields<T>,
}

impl<T> Board<T> {
    /// A board is as sound as its fields: nothing ties the multipliers to
    /// them.
    pub open spec fn well_formed(self) -> bool {
        self.fields.well_formed()
    }

    /// Creates a new board that holds `multipliers` and `fields` as given.
    pub fn new(multipliers: Multipliers, fields: Fields<T>) -> (b: Self)
        ensures
            b.multipliers == multipliers,
            b.fields == fields,
            b.well_formed() == fields.well_formed(),
    {
        Self { multipliers, fields }
    }
}

} // verus!
