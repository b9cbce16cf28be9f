use vstd::prelude::*;

use crate::color::RGB;
use crate::color::default_color;
use crate::color::spec_color_of;
use crate::color::spec_default_color;

verus! {

/// im's persistent vector, declared so it can stand in fields and signatures.
#[verifier::external_type_specification]
#[verifier::external_body]
#[verifier::reject_recursive_types(A)]
pub struct ExVector<A>(im::Vector<A>);

/// The cells a persistent vector holds, front to back.
pub uninterp spec fn vector_cells(v: im::Vector<RGB>) -> Seq<RGB>;

/// Relies on im::Vector::new: the fresh vector is empty.
#[verifier::external_body]
fn vector_new() -> (r: im::Vector<RGB>)
    ensures
        vector_cells(r) == Seq::<RGB>::empty(),
{
    im::Vector::new()
}

/// Relies on im::Vector::push_back: appends one cell at the back.
#[verifier::external_body]
fn vector_push_back(v: &mut im::Vector<RGB>, c: RGB)
    ensures
        vector_cells(*final(v)) == vector_cells(*old(v)).push(c),
{
    v.push_back(c)
}

/// Relies on im::Vector's Index impl: reads the cell at `i`. Out-of-range
/// indices panic there, so `requires` rules them out.
#[verifier::external_body]
fn vector_get(v: &im::Vector<RGB>, i: usize) -> (r: RGB)
    requires
        i < vector_cells(*v).len(),
    ensures
        r == vector_cells(*v)[i as int],
{
    v[i]
}

/// Relies on im::Vector::update: a copy of the vector with cell `i` replaced,
/// sharing all unchanged structure; the receiver is untouched. An out-of-range
/// index panics there, so `requires` rules it out.
#[verifier::external_body]
fn vector_update(v: &im::Vector<RGB>, i: usize, c: RGB) -> (r: im::Vector<RGB>)
    requires
        i < vector_cells(*v).len(),
    ensures
        vector_cells(r) == vector_cells(*v).update(i as int, c),
{
    v.update(i, c)
}

/// Relies on im::Vector::clone: a structural-sharing copy with the same cells.
#[verifier::external_body]
fn vector_clone(v: &im::Vector<RGB>) -> (r: im::Vector<RGB>)
    ensures
        vector_cells(r) == vector_cells(*v),
{
    v.clone()
}

/// Mathematical model of a snapshot: its dimensions and the row-major
/// sequence of cell colors.
#[verifier::ext_equal]
pub struct ImageView {
    pub width: nat,
    pub height: nat,
    pub cells: Seq<RGB>,
}

impl ImageView {
    /// The grid invariant: positive dimensions that fit the machine, and
    /// exactly width * height cells.
    pub open spec fn wf(self) -> bool {
        &&& 1 <= self.width
        &&& 1 <= self.height
        &&& self.width * self.height <= usize::MAX
        &&& self.cells.len() == self.width * self.height
    }

    /// Whether (x, y) addresses a cell of the grid.
    pub open spec fn in_bounds(self, x: int, y: int) -> bool {
        0 <= x < self.width && 0 <= y < self.height
    }

    /// Row-major address of (x, y).
    pub open spec fn idx(self, x: int, y: int) -> int {
        y * self.width + x
    }

    /// The color at (x, y).
    pub open spec fn cell(self, x: int, y: int) -> RGB {
        self.cells[self.idx(x, y)]
    }

    /// The snapshot a brush stroke yields: the cell at (x, y) replaced by `c`,
    /// every other cell carried over.
    pub open spec fn painted(self, x: int, y: int, c: RGB) -> ImageView {
        ImageView { cells: self.cells.update(self.idx(x, y), c), ..self }
    }
}

/// The row-major address of an in-bounds coordinate is a valid cell index.
pub proof fn lemma_row_major_in_range(v: ImageView, x: int, y: int)
    requires
        v.wf(),
        v.in_bounds(x, y),
    ensures
        0 <= v.idx(x, y) < v.cells.len(),
{
    let w = v.width as int;
    let h = v.height as int;
    assert(y * w + x < h * w) by (nonlinear_arith)
        requires
            0 <= x < w,
            0 <= y < h,
    ;
    assert(h * w == w * h) by (nonlinear_arith);
}

/// Distinct in-bounds coordinates have distinct row-major addresses, so
/// painting one cell leaves every other coordinate's color as it was: the
/// structural-sharing update is correct cell by cell.
pub proof fn lemma_painted_preserves_other_cells(v: ImageView, x: int, y: int, c: RGB, i: int, j: int)
    requires
        v.wf(),
        v.in_bounds(x, y),
        v.in_bounds(i, j),
        i != x || j != y,
    ensures
        v.painted(x, y, c).cell(i, j) == v.cell(i, j),
        v.painted(x, y, c).cell(x, y) == c,
{
    let w = v.width as int;
    lemma_row_major_in_range(v, x, y);
    lemma_row_major_in_range(v, i, j);
    assert(j * w + i != y * w + x) by (nonlinear_arith)
        requires
            0 <= i < w,
            0 <= x < w,
            0 <= j,
            0 <= y,
            i != x || j != y,
    ;
}

/// Why a brush call was rejected. A rejected call leaves every snapshot and
/// the history untouched.
#[derive(Clone, Copy, Debug, PartialEq, Eq, Structural)]
pub enum CanvasError {
    /// Brush coordinates outside [0, width) x [0, height).
    IndexOutOfBounds,
    /// A color value with other than exactly three components.
    InvalidColor,
}

/// A canvas snapshot: an immutable grid of colors over a persistent vector,
/// so a derived snapshot shares its unchanged structure with the old one.
pub struct Image {
    width: usize,
    height: usize,
    cells: im::Vector<RGB>,
}

impl View for Image {
    type V = ImageView;

    closed spec fn view(&self) -> ImageView {
        ImageView {
            width: self.width as nat,
            height: self.height as nat,
            cells: vector_cells(self.cells),
        }
    }
}

impl Clone for Image {
    /// The copy is the same grid, cell for cell, sharing its whole structure.
    fn clone(&self) -> (r: Self)
        ensures
            r@ == self@,
    {
        let r = Image { width: self.width, height: self.height, cells: vector_clone(&self.cells) };
        proof {
            assert(r@ =~= self@);
        }
        r
    }
}

impl Image {
    /// The snapshot is a well-formed grid.
    pub open spec fn wf(self) -> bool {
        self@.wf()
    }

    /// A fresh width x height canvas with every cell set to the default color.
    pub fn new(width: usize, height: usize) -> (img: Image)
        requires
            1 <= width,
            1 <= height,
            width * height <= usize::MAX,
        ensures
            img.wf(),
            img@.width == width,
            img@.height == height,
            forall|i: int| 0 <= i < width * height ==> img@.cells[i] == spec_default_color(),
    {
        let n = width * height;
        let mut cells = vector_new();
        let mut i: usize = 0;
        while i < n
            invariant
                i <= n,
                vector_cells(cells).len() == i,
                forall|j: int| 0 <= j < i ==> vector_cells(cells)[j] == spec_default_color(),
            decreases n - i,
        {
            vector_push_back(&mut cells, default_color());
            i = i + 1;
        }
        Image { width, height, cells }
    }

    /// The grid's width.
    pub fn width(&self) -> (w: usize)
        ensures
            w == self@.width,
    {
        self.width
    }

    /// The grid's height.
    pub fn height(&self) -> (h: usize)
        ensures
            h == self@.height,
    {
        self.height
    }

    /// Flattens the grid for display: three bytes per cell, row-major.
    pub fn cells(&self) -> (bytes: Vec<u8>)
        requires
            self.wf(),
        ensures
            bytes@.len() == 3 * self@.cells.len(),
            forall|i: int| 0 <= i < self@.cells.len() ==> {
                &&& bytes@[3 * i] == (#[trigger] self@.cells[i]).r
                &&& bytes@[3 * i + 1] == self@.cells[i].g
                &&& bytes@[3 * i + 2] == self@.cells[i].b
            },
    {
        let n = self.width * self.height;
        let mut bytes: Vec<u8> = Vec::new();
        let mut i: usize = 0;
        while i < n
            invariant
                i <= n,
                n == self@.cells.len(),
                self.wf(),
                n == self@.width * self@.height,
                bytes@.len() == 3 * i,
                forall|j: int| 0 <= j < i ==> {
                    &&& bytes@[3 * j] == (#[trigger] self@.cells[j]).r
                    &&& bytes@[3 * j + 1] == self@.cells[j].g
                    &&& bytes@[3 * j + 2] == self@.cells[j].b
                },
            decreases n - i,
        {
            let c = vector_get(&self.cells, i);
            bytes.push(c.r);
            bytes.push(c.g);
            bytes.push(c.b);
            i = i + 1;
        }
        bytes
    }

    /// Paints one cell. Rejects a color of the wrong arity and out-of-range
    /// coordinates without touching anything; otherwise returns `None` when
    /// the cell already holds the color (the no-op short-circuit), and else a
    /// new snapshot differing from the receiver exactly at (x, y). The
    /// receiver itself is never changed.
    pub fn brush(&self, x: usize, y: usize, color: Vec<u8>) -> (r: Result<Option<Image>, CanvasError>)
        requires
            self.wf(),
        ensures
            (r == Err::<Option<Image>, CanvasError>(CanvasError::InvalidColor)) <==> color@.len() != 3,
            (r == Err::<Option<Image>, CanvasError>(CanvasError::IndexOutOfBounds)) <==> (color@.len()
                == 3 && !self@.in_bounds(x as int, y as int)),
            color@.len() == 3 && self@.in_bounds(x as int, y as int) ==> ({
                let c = spec_color_of(color@);
                &&& ((r == Ok::<Option<Image>, CanvasError>(None)) <==> self@.cell(x as int, y as int)
                    == c)
                &&& (self@.cell(x as int, y as int) != c ==> (r matches Ok(Some(img2)) && img2@
                    == self@.painted(x as int, y as int, c) && img2.wf()))
            }),
    {
        if color.len() != 3 {
            return Err(CanvasError::InvalidColor);
        }
        if x >= self.width || y >= self.height {
            return Err(CanvasError::IndexOutOfBounds);
        }
        proof {
            lemma_row_major_in_range(self@, x as int, y as int);
        }
        let index = y * self.width + x;
        let c = RGB { r: color[0], g: color[1], b: color[2] };
        let cell = vector_get(&self.cells, index);
        if cell == c {
            Ok(None)
        } else {
            let new_cells = vector_update(&self.cells, index, c);
            let img2 = Image { width: self.width, height: self.height, cells: new_cells };
            proof {
                assert(img2@ =~= self@.painted(x as int, y as int, c));
            }
            Ok(Some(img2))
        }
    }
}

} // verus!
