use vstd::prelude::*;

verus! {

/// Bytes per pixel of the screen buffer: red, green, blue.
pub const CHANNELS: usize = 3;

/// Where the render loop stands within one displayed frame.
#[derive(Clone, Copy, Debug, PartialEq, Eq, Structural)]
pub enum Stage {
    /// Nothing bound.
    Idle,
    /// View arguments and scene buffers bound to the program.
    Bound,
    /// At least one pass issued this frame.
    Dispatched,
    /// The screen was read back to the host.
    Readback,
}

/// What happens to the render loop.
#[derive(Clone, Copy, Debug, PartialEq, Eq, Structural)]
pub enum Event {
    /// Bind the view arguments and the scene buffers.
    Bind,
    /// Issue one pass, accumulated into the screen.
    Dispatch,
    /// Read the screen back to the host.
    ReadBack,
    /// Hand the pixels to the presentation layer; the frame is over.
    Present,
    /// The scene or the view changed: the arguments must be bound again.
    Change,
    /// The screen was cleared: accumulation starts again.
    Clear,
}

/// Errors of the render loop and of the screen.
#[derive(Clone, Copy, Debug, PartialEq, Eq, Structural)]
pub enum RenderError {
    /// The event is not allowed in the current stage.
    WrongStage,
    /// The pass counter cannot count another pass.
    TooManyPasses,
    /// The screen dimensions give a buffer too large to address.
    ScreenTooLarge,
    /// A read-back buffer does not have the screen's size.
    SizeMismatch,
}

/// The next stage and pass count after `ev`, or `None` where `ev` is not
/// allowed.
pub open spec fn spec_next(stage: Stage, passes: u64, ev: Event) -> Option<(Stage, u64)> {
    match ev {
        Event::Bind => if stage == Stage::Idle {
            Some((Stage::Bound, passes))
        } else {
            None
        },
        Event::Dispatch => if (stage == Stage::Bound || stage == Stage::Dispatched) && passes
            < u64::MAX {
            Some((Stage::Dispatched, (passes + 1) as u64))
        } else {
            None
        },
        Event::ReadBack => if stage == Stage::Dispatched {
            Some((Stage::Readback, passes))
        } else {
            None
        },
        Event::Present => if stage == Stage::Readback {
            Some((Stage::Idle, passes))
        } else {
            None
        },
        Event::Change => Some((Stage::Idle, passes)),
        Event::Clear => Some((stage, 0)),
    }
}

/// The progressive render loop: `Idle -> Bound -> Dispatched -> Readback
/// -> Idle`, with the number of passes accumulated into the screen since it
/// was last cleared.
#[derive(Clone, Copy, Debug, PartialEq, Eq, Structural)]
pub struct RenderLoop {
    pub stage: Stage,
    pub passes: u64,
}

impl RenderLoop {
    /// An idle loop over a clear screen.
    pub fn new() -> (r: RenderLoop)
        ensures
            r.stage == Stage::Idle,
            r.passes == 0,
    {
        RenderLoop { stage: Stage::Idle, passes: 0 }
    }

    /// Applies an event; on an event not allowed, returns an error and
    /// leaves the loop as it was.
    pub fn handle(&mut self, ev: Event) -> (r: Result<(), RenderError>)
        ensures
            match spec_next(old(self).stage, old(self).passes, ev) {
                Some((s, p)) => r is Ok && final(self).stage == s && final(self).passes == p,
                None => r is Err && *final(self) == *old(self),
            },
            r == Err::<(), RenderError>(RenderError::TooManyPasses) <==> (ev == Event::Dispatch
                && (old(self).stage == Stage::Bound || old(self).stage == Stage::Dispatched)
                && old(self).passes == u64::MAX),
    {
        match ev {
            Event::Bind => {
                if self.stage == Stage::Idle {
                    self.stage = Stage::Bound;
                    Ok(())
                } else {
                    Err(RenderError::WrongStage)
                }
            },
            Event::Dispatch => {
                if self.stage == Stage::Bound || self.stage == Stage::Dispatched {
                    if self.passes == u64::MAX {
                        Err(RenderError::TooManyPasses)
                    } else {
                        self.stage = Stage::Dispatched;
                        self.passes = self.passes + 1;
                        Ok(())
                    }
                } else {
                    Err(RenderError::WrongStage)
                }
            },
            Event::ReadBack => {
                if self.stage == Stage::Dispatched {
                    self.stage = Stage::Readback;
                    Ok(())
                } else {
                    Err(RenderError::WrongStage)
                }
            },
            Event::Present => {
                if self.stage == Stage::Readback {
                    self.stage = Stage::Idle;
                    Ok(())
                } else {
                    Err(RenderError::WrongStage)
                }
            },
            Event::Change => {
                self.stage = Stage::Idle;
                Ok(())
            },
            Event::Clear => {
                self.passes = 0;
                Ok(())
            },
        }
    }
}

/// Whether another accumulation pass fits in this frame: the time spent
/// since the frame began is still under the frame's budget.
pub fn another_pass(elapsed_us: u64, budget_us: u64) -> (r: bool)
    ensures
        r == (elapsed_us < budget_us),
{
    elapsed_us < budget_us
}

/// Whether the screen must be cleared before this frame's passes: the
/// camera moved since the last frame, or a movement key is held.
pub fn needs_clear(updated: bool, key_mask: u64) -> (r: bool)
    ensures
        r == (updated || key_mask != 0),
{
    updated || key_mask != 0
}

/// The host copy of the screen: `width * height` pixels, row after row, of
/// `CHANNELS` bytes each.
pub struct Screen {
    width: usize,
    height: usize,
    data: Vec<u8>,
}

impl Screen {
    /// Width in pixels.
    pub closed spec fn spec_width(&self) -> nat {
        self.width as nat
    }

    /// Height in pixels.
    pub closed spec fn spec_height(&self) -> nat {
        self.height as nat
    }

    /// The pixel bytes.
    pub closed spec fn spec_data(&self) -> Seq<u8> {
        self.data@
    }

    /// The buffer has exactly one pixel per position.
    pub open spec fn wf(&self) -> bool {
        self.spec_data().len() == self.spec_width() * self.spec_height() * CHANNELS
    }

    /// A black screen of the given size; an error where its buffer would be
    /// too large to address.
    pub fn new(width: usize, height: usize) -> (r: Result<Screen, RenderError>)
        ensures
            width * height * CHANNELS > usize::MAX <==> r is Err,
            r is Err ==> r == Err::<Screen, RenderError>(RenderError::ScreenTooLarge),
            r matches Ok(s) ==> s.wf() && s.spec_width() == width && s.spec_height() == height
                && s.spec_data() == Seq::new(
                (width * height * CHANNELS) as nat,
                |_i: int| 0u8,
            ),
    {
        let len = match width.checked_mul(height) {
            Some(p) => p.checked_mul(CHANNELS),
            None => None,
        };
        proof {
            if width * height > usize::MAX {
                assert(width * height * CHANNELS > usize::MAX) by (nonlinear_arith)
                    requires
                        width * height > usize::MAX,
                ;
            }
        }
        match len {
            None => Err(RenderError::ScreenTooLarge),
            Some(n) => {
                let mut data: Vec<u8> = Vec::new();
                let mut i: usize = 0;
                while i < n
                    invariant
                        0 <= i <= n,
                        data@ =~= Seq::new(i as nat, |_i: int| 0u8),
                    decreases n - i,
                {
                    data.push(0);
                    i = i + 1;
                }
                Ok(Screen { width, height, data })
            },
        }
    }

    /// Width and height in pixels.
    pub fn dims(&self) -> (r: (usize, usize))
        ensures
            r.0 == self.spec_width(),
            r.1 == self.spec_height(),
    {
        (self.width, self.height)
    }

    /// Bytes in one row.
    pub fn pitch(&self) -> (r: usize)
        requires
            self.wf(),
            self.spec_height() > 0,
        ensures
            r == self.spec_width() * CHANNELS,
    {
        proof {
            assert(self.spec_width() * CHANNELS <= self.spec_width() * self.spec_height()
                * CHANNELS) by (nonlinear_arith)
                requires
                    self.spec_height() > 0,
            ;
        }
        let len = self.data.len();
        assert(self.width * CHANNELS <= len);
        self.width * CHANNELS
    }

    /// Number of bytes in the buffer.
    pub fn len(&self) -> (r: usize)
        ensures
            r == self.spec_data().len(),
    {
        self.data.len()
    }

    /// The pixel bytes.
    pub fn data(&self) -> (r: &Vec<u8>)
        ensures
            r@ == self.spec_data(),
    {
        &self.data
    }

    /// Takes the pixels read back from the device; a buffer of another size
    /// is refused and the screen kept as it was.
    pub fn store(&mut self, pixels: Vec<u8>) -> (r: Result<(), RenderError>)
        requires
            old(self).wf(),
        ensures
            final(self).wf(),
            final(self).spec_width() == old(self).spec_width(),
            final(self).spec_height() == old(self).spec_height(),
            r is Ok <==> pixels@.len() == old(self).spec_data().len(),
            r is Ok ==> final(self).spec_data() == pixels@,
            r is Err ==> r == Err::<(), RenderError>(RenderError::SizeMismatch)
                && final(self).spec_data() == old(self).spec_data(),
    {
        if pixels.len() == self.data.len() {
            self.data = pixels;
            Ok(())
        } else {
            Err(RenderError::SizeMismatch)
        }
    }
}

} // verus!

verus! {

/// Number of movement keys tracked in a key mask.
pub const KEY_COUNT: usize = 12;

/// Whether bit `i` of a key mask is set: movement key `i` is held.
pub open spec fn spec_held(mask: u64, i: u64) -> bool {
    (mask >> i) & 1 == 1
}

/// Records that movement key `i` went down (`down`) or up.
pub fn key_mask_update(mask: u64, i: usize, down: bool) -> (r: u64)
    requires
        i < KEY_COUNT,
    ensures
        r == (if down {
            mask | (1u64 << (i as u64))
        } else {
            mask & !(1u64 << (i as u64))
        }),
        spec_held(r, i as u64) == down,
{
    let k = i as u64;
    if down {
        let r = mask | (1u64 << k);
        assert((r >> k) & 1 == 1) by (bit_vector)
            requires
                r == mask | (1u64 << k),
                k < 12,
        ;
        r
    } else {
        let r = mask & !(1u64 << k);
        assert((r >> k) & 1 == 0) by (bit_vector)
            requires
                r == mask & !(1u64 << k),
                k < 12,
        ;
        r
    }
}

/// Whether movement key `i` is held.
pub fn key_held(mask: u64, i: usize) -> (r: bool)
    requires
        i < KEY_COUNT,
    ensures
        r == spec_held(mask, i as u64),
{
    (mask >> (i as u64)) & 1 == 1
}

} // verus!
