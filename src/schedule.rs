//! The image raster and the order in which it is rendered: rows top to
//! bottom, pixels left to right within a row, and for each pixel a fixed
//! number of samples before its colour is emitted.
use vstd::prelude::*;

verus! {

/// The size of the rendered image in pixels.
#[derive(Clone, Copy, Debug, PartialEq, Eq, Structural)]
pub struct Raster {
    pub width: u32,
    pub height: u32,
}

impl Raster {
    /// A raster `width` pixels wide whose height is `scaled_height`, the
    /// width divided by the aspect ratio and floored, but at least one row.
    pub fn new(width: u32, scaled_height: i32) -> (r: Raster)
        ensures
            r.width == width,
            r.height as int == if scaled_height < 1 { 1 } else { scaled_height as int },
    {
        let height: u32 = if scaled_height < 1 { 1 } else { scaled_height as u32 };
        Raster { width, height }
    }

    /// The number of pixels.
    pub fn pixel_count(&self) -> (r: u64)
        ensures
            r as int == self.width as int * self.height as int,
    {
        let w = self.width as u64;
        let h = self.height as u64;
        assert(w * h <= 0xffff_ffff * 0xffff_ffff) by (nonlinear_arith)
            requires
                w <= 0xffff_ffff,
                h <= 0xffff_ffff,
        ;
        w * h
    }
}

/// What the renderer does next.
#[derive(Clone, Copy, Debug, PartialEq, Eq, Structural)]
pub enum Task {
    /// Trace one more sample ray through pixel column `i` of row `j`.
    Sample { i: u32, j: u32 },
    /// The samples of pixel column `i` of row `j` are all in: emit its colour.
    Pixel { i: u32, j: u32 },
    /// Every pixel has been emitted.
    Done,
}

/// The position of the renderer within the raster.
pub struct Schedule {
    pub raster: Raster,
    pub samples: u32,
    pub row: u32,
    pub col: u32,
    pub sample: u32,
}

impl Schedule {
    /// The position lies within the raster and the pixel's samples.
    pub open spec fn wf(&self) -> bool {
        &&& self.row <= self.raster.height
        &&& self.raster.width > 0 ==> self.col < self.raster.width
        &&& self.sample <= self.samples
    }

    /// Whether every pixel has been emitted.
    pub open spec fn finished(&self) -> bool {
        self.raster.width == 0 || self.row >= self.raster.height
    }

    /// The schedule of `raster` with `samples` samples per pixel, before its
    /// first pixel.
    pub fn new(raster: Raster, samples: u32) -> (r: Schedule)
        ensures
            r.wf(),
            r.raster == raster,
            r.samples == samples,
            r.row == 0,
            r.col == 0,
            r.sample == 0,
    {
        Schedule { raster, samples, row: 0, col: 0, sample: 0 }
    }

    /// The number of rows not yet emitted whole.
    pub fn rows_left(&self) -> (r: u32)
        requires
            self.wf(),
        ensures
            r == self.raster.height - self.row,
    {
        self.raster.height - self.row
    }

    /// Hands out the next task and moves past it.
    pub fn next(&mut self) -> (r: Task)
        requires
            old(self).wf(),
        ensures
            final(self).wf(),
            final(self).raster == old(self).raster,
            final(self).samples == old(self).samples,
            old(self).finished() ==> r == Task::Done && *final(self) == *old(self),
            !old(self).finished() && old(self).sample < old(self).samples ==> {
                &&& r == (Task::Sample { i: old(self).col, j: old(self).row })
                &&& final(self).row == old(self).row
                &&& final(self).col == old(self).col
                &&& final(self).sample == old(self).sample + 1
            },
            !old(self).finished() && old(self).sample == old(self).samples ==> {
                &&& r == (Task::Pixel { i: old(self).col, j: old(self).row })
                &&& final(self).sample == 0
                &&& old(self).col + 1 < old(self).raster.width ==> final(self).row == old(self).row
                    && final(self).col == old(self).col + 1
                &&& old(self).col + 1 == old(self).raster.width ==> final(self).row == old(
                    self,
                ).row + 1 && final(self).col == 0
            },
    {
        if self.raster.width == 0 || self.row >= self.raster.height {
            Task::Done
        } else if self.sample < self.samples {
            self.sample = self.sample + 1;
            Task::Sample { i: self.col, j: self.row }
        } else {
            let t = Task::Pixel { i: self.col, j: self.row };
            self.sample = 0;
            if self.col + 1 < self.raster.width {
                self.col = self.col + 1;
            } else {
                self.col = 0;
                self.row = self.row + 1;
            }
            t
        }
    }
}

} // verus!
