//! The capture model: RGBA frames, one fallible capture attempt per
//! monitor, and the rule that keeps the successful attempts and drops the
//! failed ones — returning nothing rather than an empty batch.

use vstd::prelude::*;

verus! {

/// One captured frame: an RGBA pixel buffer together with its dimensions.
#[derive(PartialEq, Eq, Debug)]
pub struct Image {
    /// Width in pixels.
    pub width: u32,
    /// Height in pixels.
    pub height: u32,
    /// Pixel data, four bytes (R, G, B, A) per pixel, row by row.
    pub data: Vec<u8>,
}

impl Image {
    /// The buffer holds exactly four bytes per pixel.
    pub open spec fn wf(self) -> bool {
        self.data@.len() == 4 * (self.width as int) * (self.height as int)
    }

    /// Builds a frame from raw RGBA bytes; refuses a buffer whose length
    /// does not match the dimensions.
    pub fn new(width: u32, height: u32, data: Vec<u8>) -> (r: Option<Image>)
        ensures
            (match r {
                Some(img) => {
                    &&& img.width == width
                    &&& img.height == height
                    &&& img.data@ == data@
                    &&& img.wf()
                },
                None => data@.len() != 4 * (width as int) * (height as int),
            }),
    {
        let w: u128 = width as u128;
        let h: u128 = height as u128;
        proof {
            assert(4 * w * h <= 4 * 0xffff_ffff * 0xffff_ffff) by (nonlinear_arith)
                requires
                    w <= 0xffff_ffff,
                    h <= 0xffff_ffff,
            ;
        }
        let need: u128 = 4 * w * h;
        if (data.len() as u128) == need {
            Some(Image { width, height, data })
        } else {
            None
        }
    }
}

/// The images of the capture attempts that succeeded, in order.
pub open spec fn successes(outcomes: Seq<Option<Image>>) -> Seq<Image>
    decreases outcomes.len(),
{
    if outcomes.len() == 0 {
        Seq::empty()
    } else {
        match outcomes[0] {
            Some(img) => seq![img] + successes(outcomes.drop_first()),
            None => successes(outcomes.drop_first()),
        }
    }
}

/// How many capture attempts of one pass succeeded.
pub open spec fn success_count(outcomes: Seq<Option<Image>>) -> nat
    decreases outcomes.len(),
{
    if outcomes.len() == 0 {
        0
    } else {
        (if outcomes[0] is Some {
            1nat
        } else {
            0nat
        }) + success_count(outcomes.drop_first())
    }
}

/// The batch holds one image per successful capture: its length is the
/// number of attempts that succeeded.
pub proof fn lemma_batch_length_is_success_count(outcomes: Seq<Option<Image>>)
    ensures
        successes(outcomes).len() == success_count(outcomes),
    decreases outcomes.len(),
{
    if outcomes.len() > 0 {
        lemma_batch_length_is_success_count(outcomes.drop_first());
    }
}

/// No attempt succeeded exactly when every attempt failed.
pub proof fn lemma_successes_empty_iff_all_failed(outcomes: Seq<Option<Image>>)
    ensures
        successes(outcomes).len() == 0 <==> (forall|i: int|
            0 <= i < outcomes.len() ==> outcomes[i] is None),
    decreases outcomes.len(),
{
    if outcomes.len() > 0 {
        let rest = outcomes.drop_first();
        lemma_successes_empty_iff_all_failed(rest);
        if successes(outcomes).len() == 0 {
            assert(outcomes[0] is None);
            assert forall|i: int| 0 <= i < outcomes.len() implies outcomes[i] is None by {
                if i > 0 {
                    assert(rest[i - 1] == outcomes[i]);
                }
            }
        }
        if forall|i: int| 0 <= i < outcomes.len() ==> outcomes[i] is None {
            assert(outcomes[0] is None);
            assert forall|i: int| 0 <= i < rest.len() implies rest[i] is None by {
                assert(rest[i] == outcomes[i + 1]);
            }
            assert(successes(rest).len() == 0);
        }
    }
}

/// Keeps the successful captures of one pass, in order, dropping the
/// failed ones; absent when none succeeded — never an empty batch.
pub fn collect_captures(outcomes: Vec<Option<Image>>) -> (r: Option<Vec<Image>>)
    ensures
        (match r {
            Some(imgs) => imgs@ == successes(outcomes@) && imgs@.len() > 0,
            None => successes(outcomes@).len() == 0,
        }),
{
    let ghost all: Seq<Option<Image>> = outcomes@;
    let mut rest = outcomes;
    let mut imgs: Vec<Image> = Vec::new();
    proof {
        assert(imgs@ + successes(rest@) =~= successes(all));
    }
    while rest.len() > 0
        invariant
            imgs@ + successes(rest@) =~= successes(all),
        decreases rest.len(),
    {
        let ghost before: Seq<Option<Image>> = rest@;
        let first = rest.remove(0);
        proof {
            assert(rest@ =~= before.drop_first());
        }
        match first {
            Some(img) => {
                let ghost imgs_before: Seq<Image> = imgs@;
                imgs.push(img);
                proof {
                    assert(successes(before) == seq![img] + successes(before.drop_first()));
                    assert(imgs@ + successes(rest@) =~= imgs_before + successes(before));
                }
            },
            None => {
                proof {
                    assert(successes(before) == successes(before.drop_first()));
                }
            },
        }
    }
    proof {
        assert(successes(rest@).len() == 0);
        assert(imgs@ =~= successes(all));
    }
    if imgs.len() == 0 {
        None
    } else {
        Some(imgs)
    }
}

/// The whole capture pass over what monitor enumeration gave: absent when
/// enumeration failed, otherwise the successful captures — absent again
/// when every one of them failed.
pub fn capture_screen(enumerated: Option<Vec<Option<Image>>>) -> (r: Option<Vec<Image>>)
    ensures
        (match enumerated {
            Some(outcomes) => (match r {
                Some(imgs) => imgs@ == successes(outcomes@) && imgs@.len() > 0,
                None => successes(outcomes@).len() == 0,
            }),
            None => r is None,
        }),
{
    match enumerated {
        Some(outcomes) => collect_captures(outcomes),
        None => None,
    }
}

} // verus!
