//! The shapes and the scale of the preprocessing step.
//!
//! A decoded image has three dimensions: height, width and channels. Before
//! it is resized it gets a leading batch dimension of one. The resize brings
//! height and width to the target size and leaves batch and channels alone.
//! The scale handed to the resize is, per axis, the target size divided by the
//! source size; it is kept here as the exact fraction.

use vstd::prelude::*;

verus! {

/// The height every image is resized to.
pub const TARGET_HEIGHT: u64 = 224;

/// The width every image is resized to.
pub const TARGET_WIDTH: u64 = 224;

/// The dimensions of a single image.
#[derive(Clone, Copy, Debug, PartialEq, Eq, Structural)]
pub struct ImageShape {
    pub height: u64,
    pub width: u64,
    pub channels: u64,
}

/// The dimensions of a batch of images.
#[derive(Clone, Copy, Debug, PartialEq, Eq, Structural)]
pub struct BatchShape {
    pub batch: u64,
    pub height: u64,
    pub width: u64,
    pub channels: u64,
}

/// A fraction `num / den`. A denominator of zero is kept as it is: it stands
/// for a source axis without any pixel, which the resize turns down.
#[derive(Clone, Copy, Debug, PartialEq, Eq, Structural)]
pub struct Ratio {
    pub num: u64,
    pub den: u64,
}

/// The scale of a resize, one fraction per spatial axis.
#[derive(Clone, Copy, Debug, PartialEq, Eq, Structural)]
pub struct Scale {
    pub height: Ratio,
    pub width: Ratio,
}

/// The shift of a resize, one fraction per spatial axis.
#[derive(Clone, Copy, Debug, PartialEq, Eq, Structural)]
pub struct Translation {
    pub height: Ratio,
    pub width: Ratio,
}

/// All that fixes one resize: what goes in, the size asked for, the scale and
/// the translation per axis, whether to filter before sampling, and what
/// comes out.
#[derive(Clone, Copy, Debug, PartialEq, Eq, Structural)]
pub struct ResizePlan {
    pub input: BatchShape,
    pub target_height: u64,
    pub target_width: u64,
    pub scale: Scale,
    pub translation: Translation,
    pub antialias: bool,
    pub output: BatchShape,
}

impl ImageShape {
    /// The dimensions in order: height, width, channels.
    pub open spec fn dims_spec(self) -> Seq<u64> {
        seq![self.height, self.width, self.channels]
    }

    /// The shape of the batch that holds this image alone.
    pub open spec fn batched(self) -> BatchShape {
        BatchShape { batch: 1, height: self.height, width: self.width, channels: self.channels }
    }

    /// The dimensions in order: height, width, channels.
    pub fn dims(&self) -> (d: Vec<u64>)
        ensures
            d@ == self.dims_spec(),
    {
        let mut d: Vec<u64> = Vec::new();
        d.push(self.height);
        d.push(self.width);
        d.push(self.channels);
        d
    }

    /// Puts a batch dimension of one in front.
    pub fn with_batch(&self) -> (b: BatchShape)
        ensures
            b == self.batched(),
            b.dims_spec() == seq![1u64] + self.dims_spec(),
    {
        let b = BatchShape {
            batch: 1,
            height: self.height,
            width: self.width,
            channels: self.channels,
        };
        assert(b.dims_spec() =~= seq![1u64] + self.dims_spec());
        b
    }
}

impl BatchShape {
    /// The dimensions in order: batch, height, width, channels.
    pub open spec fn dims_spec(self) -> Seq<u64> {
        seq![self.batch, self.height, self.width, self.channels]
    }

    /// The shape of one image of the batch.
    pub open spec fn single(self) -> ImageShape {
        ImageShape { height: self.height, width: self.width, channels: self.channels }
    }

    /// The shape after a resize to `height` by `width`.
    pub open spec fn resized_to(self, height: u64, width: u64) -> BatchShape {
        BatchShape { batch: self.batch, height, width, channels: self.channels }
    }

    /// The dimensions in order: batch, height, width, channels.
    pub fn dims(&self) -> (d: Vec<u64>)
        ensures
            d@ == self.dims_spec(),
    {
        let mut d: Vec<u64> = Vec::new();
        d.push(self.batch);
        d.push(self.height);
        d.push(self.width);
        d.push(self.channels);
        d
    }

    /// Whether `dims` are the dimensions of this shape, in number and value.
    pub fn has_dims(&self, dims: &[u64]) -> (b: bool)
        ensures
            b == (dims@ == self.dims_spec()),
    {
        if dims.len() != 4 {
            return false;
        }
        let b = dims[0] == self.batch && dims[1] == self.height && dims[2] == self.width
            && dims[3] == self.channels;
        assert(b == (dims@ =~= self.dims_spec()));
        b
    }

    /// Takes the batch dimension away.
    pub fn without_batch(&self) -> (s: ImageShape)
        ensures
            s == self.single(),
            s.dims_spec() == self.dims_spec().subrange(1, 4),
    {
        let s = ImageShape { height: self.height, width: self.width, channels: self.channels };
        assert(s.dims_spec() =~= self.dims_spec().subrange(1, 4));
        s
    }
}

/// The scale that brings `height` by `width` to the target size: per axis the
/// target size over the source size.
pub open spec fn scale_for(height: u64, width: u64) -> Scale {
    Scale {
        height: Ratio { num: TARGET_HEIGHT, den: height },
        width: Ratio { num: TARGET_WIDTH, den: width },
    }
}

/// No translation on either axis.
pub open spec fn no_translation() -> Translation {
    Translation { height: Ratio { num: 0, den: 1 }, width: Ratio { num: 0, den: 1 } }
}

/// The resize of one decoded image to the target size.
pub open spec fn resize_plan(image: ImageShape) -> ResizePlan {
    ResizePlan {
        input: image.batched(),
        target_height: TARGET_HEIGHT,
        target_width: TARGET_WIDTH,
        scale: scale_for(image.height, image.width),
        translation: no_translation(),
        antialias: true,
        output: image.batched().resized_to(TARGET_HEIGHT, TARGET_WIDTH),
    }
}

/// The scale that brings `height` by `width` to the target size.
pub fn scale_factor(height: u64, width: u64) -> (s: Scale)
    ensures
        s == scale_for(height, width),
        s.height.num == 224 && s.height.den == height,
        s.width.num == 224 && s.width.den == width,
{
    Scale {
        height: Ratio { num: TARGET_HEIGHT, den: height },
        width: Ratio { num: TARGET_WIDTH, den: width },
    }
}

/// Plans the resize of one decoded image: a batch of one goes in, and a batch
/// of one comes out that is 224 by 224 with the channels of the source.
pub fn plan_resize(image: ImageShape) -> (p: ResizePlan)
    ensures
        p == resize_plan(image),
        p.input.dims_spec() == seq![1u64, image.height, image.width, image.channels],
        p.output.dims_spec() == seq![1u64, 224u64, 224u64, image.channels],
{
    let input = image.with_batch();
    let output = BatchShape {
        batch: input.batch,
        height: TARGET_HEIGHT,
        width: TARGET_WIDTH,
        channels: input.channels,
    };
    ResizePlan {
        input,
        target_height: TARGET_HEIGHT,
        target_width: TARGET_WIDTH,
        scale: scale_factor(image.height, image.width),
        translation: Translation {
            height: Ratio { num: 0, den: 1 },
            width: Ratio { num: 0, den: 1 },
        },
        antialias: true,
        output,
    }
}

} // verus!
