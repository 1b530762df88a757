//! Capture stream descriptors and the choice among the ones a device offers.
//!
//! A device advertises a list of capture modes. The negotiator prefers an
//! 8-bit RGB mode over every other pixel format and, inside the preferred
//! class, the mode whose resolution lies nearest to 1280x720. Among equally
//! good modes the one advertised first wins.

use vstd::prelude::*;

verus! {

/// Width of the resolution the negotiator aims for.
pub const TARGET_WIDTH: u32 = 1280;

/// Height of the resolution the negotiator aims for.
pub const TARGET_HEIGHT: u32 = 720;

/// Bits per pixel of 8-bit-per-channel RGB.
pub const RGB8_BITS: u32 = 24;

/// Pixel layout of a capture mode. The number is the count of bits per pixel.
#[derive(Clone, Copy, Debug, PartialEq, Eq, Structural)]
pub enum PixelFormat {
    /// Red, green, blue.
    Rgb(u32),
    /// Blue, green, red.
    Bgr(u32),
    /// Grayscale.
    Gray(u32),
    /// Depth buffer.
    Depth(u32),
    /// JPEG compressed frames.
    Jpeg,
    /// Any other, device specific layout.
    Custom,
}

impl PixelFormat {
    /// Three channels of eight bits each, red first.
    pub open spec fn spec_is_rgb8(self) -> bool {
        self == PixelFormat::Rgb(RGB8_BITS)
    }

    /// Three channels of eight bits each, red first.
    #[verifier::when_used_as_spec(spec_is_rgb8)]
    pub fn is_rgb8(self) -> (b: bool)
        ensures
            b == self.spec_is_rgb8(),
    {
        match self {
            PixelFormat::Rgb(bits) => bits == RGB8_BITS,
            _ => false,
        }
    }
}

/// One capture mode that a device offers.
#[derive(Clone, Copy, Debug, PartialEq, Eq, Structural)]
pub struct StreamDescriptor {
    pub pixel_format: PixelFormat,
    pub width: u32,
    pub height: u32,
}

impl StreamDescriptor {
    /// Square of the Euclidean distance between this mode's resolution and
    /// the target resolution. The distance itself is its square root, so two
    /// modes compare by distance exactly as they compare by this number.
    pub open spec fn spec_distance_squared(self) -> int {
        (TARGET_WIDTH - self.width) * (TARGET_WIDTH - self.width) + (TARGET_HEIGHT - self.height)
            * (TARGET_HEIGHT - self.height)
    }

    /// Square of the Euclidean distance to the target resolution.
    pub fn distance_squared(self) -> (d: u128)
        ensures
            d == self.spec_distance_squared(),
    {
        let dx: u128 = if self.width >= TARGET_WIDTH {
            (self.width - TARGET_WIDTH) as u128
        } else {
            (TARGET_WIDTH - self.width) as u128
        };
        let dy: u128 = if self.height >= TARGET_HEIGHT {
            (self.height - TARGET_HEIGHT) as u128
        } else {
            (TARGET_HEIGHT - self.height) as u128
        };
        assert(dx * dx <= 0xFFFF_FFFF * 0xFFFF_FFFF) by (nonlinear_arith)
            requires
                dx <= 0xFFFF_FFFF,
        ;
        assert(dy * dy <= 0xFFFF_FFFF * 0xFFFF_FFFF) by (nonlinear_arith)
            requires
                dy <= 0xFFFF_FFFF,
        ;
        assert(dx * dx == (TARGET_WIDTH - self.width) * (TARGET_WIDTH - self.width))
            by (nonlinear_arith)
            requires
                dx == TARGET_WIDTH - self.width || dx == self.width - TARGET_WIDTH,
        ;
        assert(dy * dy == (TARGET_HEIGHT - self.height) * (TARGET_HEIGHT - self.height))
            by (nonlinear_arith)
            requires
                dy == TARGET_HEIGHT - self.height || dy == self.height - TARGET_HEIGHT,
        ;
        dx * dx + dy * dy
    }

    /// `self` is strictly preferred to `other`: it is 8-bit RGB and `other` is
    /// not, or both are of the same class and `self` lies nearer to the target.
    pub open spec fn spec_beats(self, other: StreamDescriptor) -> bool {
        if self.pixel_format.is_rgb8() != other.pixel_format.is_rgb8() {
            self.pixel_format.is_rgb8()
        } else {
            self.spec_distance_squared() < other.spec_distance_squared()
        }
    }

    /// Whether `self` is strictly preferred to `other`.
    #[verifier::when_used_as_spec(spec_beats)]
    pub fn beats(self, other: StreamDescriptor) -> (b: bool)
        ensures
            b == self.spec_beats(other),
    {
        let mine = self.pixel_format.is_rgb8();
        if mine != other.pixel_format.is_rgb8() {
            mine
        } else {
            self.distance_squared() < other.distance_squared()
        }
    }
}

/// `index` is the position of the preferred mode of `offered`: no mode beats
/// it, and it beats every mode advertised before it.
pub open spec fn is_preferred(offered: Seq<StreamDescriptor>, index: int) -> bool {
    &&& 0 <= index < offered.len()
    &&& forall|j: int| 0 <= j < offered.len() ==> !(#[trigger] offered[j]).beats(offered[index])
    &&& forall|j: int| 0 <= j < index ==> offered[index].beats(#[trigger] offered[j])
}

/// The position of the preferred mode of `offered`, a list that is not
/// empty.
pub open spec fn preferred(offered: Seq<StreamDescriptor>) -> int {
    choose|index: int| is_preferred(offered, index)
}

/// Position of the preferred mode among `offered`, `None` when the device
/// offers no mode at all.
pub fn select_index(offered: &[StreamDescriptor]) -> (chosen: Option<usize>)
    ensures
        chosen is None <==> offered@.len() == 0,
        chosen matches Some(index) ==> is_preferred(offered@, index as int) && index == preferred(
            offered@,
        ),
{
    if offered.len() == 0 {
        return None;
    }
    let mut best: usize = 0;
    let mut next: usize = 1;
    while next < offered.len()
        invariant
            0 <= best < next <= offered@.len(),
            forall|j: int| 0 <= j < next ==> !(#[trigger] offered@[j]).beats(offered@[best as int]),
            forall|j: int| 0 <= j < best ==> offered@[best as int].beats(#[trigger] offered@[j]),
        decreases offered@.len() - next,
    {
        if offered[next].beats(offered[best]) {
            best = next;
        }
        next += 1;
    }
    proof {
        assert(is_preferred(offered@, best as int));
        lemma_preferred_is_unique(offered@, best as int, preferred(offered@));
    }
    Some(best)
}

/// The preferred mode among `offered`, `None` when the device offers none.
/// Where an 8-bit RGB mode is offered the preferred mode is 8-bit RGB;
/// where none is, it is a mode of least distance to the target.
pub fn select_stream(offered: &[StreamDescriptor]) -> (chosen: Option<StreamDescriptor>)
    ensures
        chosen is None <==> offered@.len() == 0,
        chosen matches Some(descriptor) ==> is_preferred(offered@, preferred(offered@))
            && descriptor == offered@[preferred(offered@)],
        chosen matches Some(descriptor) ==> ((exists|j: int|
            0 <= j < offered@.len() && (#[trigger] offered@[j]).pixel_format.is_rgb8())
            ==> descriptor.pixel_format.is_rgb8()),
        chosen matches Some(descriptor) ==> ((forall|j: int|
            0 <= j < offered@.len() ==> !(#[trigger] offered@[j]).pixel_format.is_rgb8())
            ==> (forall|j: int|
            0 <= j < offered@.len() ==> descriptor.spec_distance_squared() <= (
            #[trigger] offered@[j]).spec_distance_squared())),
{
    match select_index(offered) {
        Some(index) => {
            proof {
                if exists|j: int|
                    0 <= j < offered@.len() && (#[trigger] offered@[j]).pixel_format.is_rgb8() {
                    lemma_rgb8_is_preferred_outright(offered@);
                }
                if forall|j: int|
                    0 <= j < offered@.len() ==> !(#[trigger] offered@[j]).pixel_format.is_rgb8() {
                    lemma_nearest_is_preferred_without_rgb8(offered@, index as int);
                }
            }
            Some(offered[index])
        },
        None => None,
    }
}

/// At most one position of a list is the preferred one, so `is_preferred`
/// determines what `select_index` returns.
pub proof fn lemma_preferred_is_unique(offered: Seq<StreamDescriptor>, first: int, second: int)
    requires
        is_preferred(offered, first),
        is_preferred(offered, second),
    ensures
        first == second,
{
    if first < second {
        assert(offered[second].beats(offered[first]));
        assert(!offered[second].beats(offered[first]));
    } else if second < first {
        assert(offered[first].beats(offered[second]));
        assert(!offered[first].beats(offered[second]));
    }
}

/// Where at least one 8-bit RGB mode is offered, the preferred mode is 8-bit
/// RGB, however far its resolution lies from the target.
pub proof fn lemma_rgb8_is_preferred_outright(offered: Seq<StreamDescriptor>)
    requires
        exists|j: int| 0 <= j < offered.len() && (#[trigger] offered[j]).pixel_format.is_rgb8(),
    ensures
        forall|index: int|
            is_preferred(offered, index) ==> (#[trigger] offered[index]).pixel_format.is_rgb8(),
{
    let witness = choose|j: int| 0 <= j < offered.len() && (#[trigger] offered[j]).pixel_format.is_rgb8();
    assert forall|index: int| is_preferred(offered, index) implies (
    #[trigger] offered[index]).pixel_format.is_rgb8() by {
        assert(!offered[witness].beats(offered[index]));
    }
}

/// Where no 8-bit RGB mode is offered, the preferred mode is one of least
/// distance to the target, and the first of those in the order advertised.
pub proof fn lemma_nearest_is_preferred_without_rgb8(offered: Seq<StreamDescriptor>, index: int)
    requires
        is_preferred(offered, index),
        forall|j: int| 0 <= j < offered.len() ==> !(#[trigger] offered[j]).pixel_format.is_rgb8(),
    ensures
        forall|j: int|
            0 <= j < offered.len() ==> offered[index].spec_distance_squared() <= (
            #[trigger] offered[j]).spec_distance_squared(),
        forall|j: int|
            0 <= j < index ==> offered[index].spec_distance_squared() < (
            #[trigger] offered[j]).spec_distance_squared(),
{
    assert forall|j: int| 0 <= j < offered.len() implies offered[index].spec_distance_squared() <= (
    #[trigger] offered[j]).spec_distance_squared() by {
        assert(!offered[j].beats(offered[index]));
    }
    assert forall|j: int| 0 <= j < index implies offered[index].spec_distance_squared() < (
    #[trigger] offered[j]).spec_distance_squared() by {
        assert(offered[index].beats(offered[j]));
    }
}

/// Every list that is not empty has a preferred position.
pub proof fn lemma_preferred_exists(offered: Seq<StreamDescriptor>) -> (index: int)
    requires
        offered.len() > 0,
    ensures
        is_preferred(offered, index),
    decreases offered.len(),
{
    if offered.len() == 1 {
        0
    } else {
        let shorter = offered.drop_last();
        let before = lemma_preferred_exists(shorter);
        let last = offered.len() - 1;
        assert(forall|j: int| 0 <= j < shorter.len() ==> shorter[j] == offered[j]);
        if offered[last].beats(offered[before]) {
            assert forall|j: int| 0 <= j < last implies offered[last].beats(#[trigger] offered[j]) by {
                assert(!shorter[j].beats(shorter[before]));
            }
            assert forall|j: int| 0 <= j < offered.len() implies !(#[trigger] offered[j]).beats(
                offered[last],
            ) by {
                if j < last {
                    assert(offered[last].beats(offered[j]));
                }
            }
            last
        } else {
            assert forall|j: int| 0 <= j < offered.len() implies !(#[trigger] offered[j]).beats(
                offered[before],
            ) by {
                if j < last {
                    assert(!shorter[j].beats(shorter[before]));
                }
            }
            assert forall|j: int| 0 <= j < before implies offered[before].beats(
                #[trigger] offered[j],
            ) by {
                assert(shorter[before].beats(shorter[j]));
            }
            before
        }
    }
}

} // verus!
