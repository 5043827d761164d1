//! Capturing a linear memory copy-on-write: a file in memory takes the pristine
//! image, and putting the memory back maps that file over it again.
//!
//! The order of the operating system's work, and what each of its failures
//! means, is decided here one step at a time; whoever drives the steps does the
//! work and reports how it went.

use crate::error::{ErrorModel, MemoryError};
use crate::units::{Pages, WASM_PAGE_SIZE};
use vstd::prelude::*;

verus! {

/// A pristine image of a linear memory, taken copy-on-write.
pub struct CowBacking {
    /// The image: every byte that the memory showed.
    pub image: Vec<u8>,
    /// The pages that the memory had.
    pub pages: Pages,
    /// The base of the memory. The image goes back only to a memory that still
    /// has it.
    pub base: usize,
}

impl CowBacking {
    /// The image is of whole pages, as many as are counted.
    pub open spec fn wf(&self) -> bool {
        self.image@.len() == self.pages.byte_count()
    }

    /// Whether the image is of whole pages, as many as are counted.
    pub fn is_whole(&self) -> (whole: bool)
        ensures
            whole == self.wf(),
    {
        self.image.len() as u64 == self.pages.0 as u64 * WASM_PAGE_SIZE as u64
    }
}

/// The next piece of work when an image is taken.
#[derive(Copy, Clone, Debug, PartialEq, Eq, Structural)]
pub enum CaptureStep {
    /// Make a file that lives in memory.
    CreateFile,
    /// Give the file the image's length.
    ResizeFile,
    /// Map the file and copy the memory's bytes into it.
    FillFile,
    /// The image is taken.
    Finished,
}

/// What failed, as an error text: `what` and the operating system's own words.
pub open spec fn failure(what: &str, words: Seq<char>) -> ErrorModel {
    ErrorModel::Generic(what@ + words)
}

/// The step that follows when `step` of an image of `len` bytes went as
/// `answer` says.
pub open spec fn capture_next(step: CaptureStep, len: nat, answer: Result<(), String>) -> Result<
    CaptureStep,
    ErrorModel,
> {
    match (step, answer) {
        (CaptureStep::CreateFile, Ok(_)) => Ok(
            if len > 0 {
                CaptureStep::ResizeFile
            } else {
                CaptureStep::Finished
            },
        ),
        (CaptureStep::CreateFile, Err(words)) => Err(failure("memfd_create failed: ", words@)),
        (CaptureStep::ResizeFile, Ok(_)) => Ok(CaptureStep::FillFile),
        (CaptureStep::ResizeFile, Err(words)) => Err(failure("ftruncate failed: ", words@)),
        (CaptureStep::FillFile, Ok(_)) => Ok(CaptureStep::Finished),
        (CaptureStep::FillFile, Err(words)) => Err(failure("mmap(memfd) failed: ", words@)),
        (CaptureStep::Finished, _) => Ok(CaptureStep::Finished),
    }
}

/// A text and the operating system's own words, as an error.
fn failed(what: &str, words: &String) -> (error: MemoryError)
    ensures
        error@ == ErrorModel::Generic(what@ + words@),
{
    let mut text = what.to_owned();
    text.append(words.as_str());
    MemoryError::Generic(text)
}

impl CaptureStep {
    /// How many steps may still follow.
    pub open spec fn rank(self) -> nat {
        match self {
            CaptureStep::CreateFile => 3,
            CaptureStep::ResizeFile => 2,
            CaptureStep::FillFile => 1,
            CaptureStep::Finished => 0,
        }
    }

    /// Whether there is nothing left to do.
    pub fn is_finished(&self) -> (finished: bool)
        ensures
            finished == (*self is Finished),
    {
        matches!(self, CaptureStep::Finished)
    }

    /// The step that follows when this one, for an image of `len` bytes, went as
    /// `answer` says; see [`capture_next`].
    pub fn next(self, len: usize, answer: Result<(), String>) -> (next: Result<
        CaptureStep,
        MemoryError,
    >)
        ensures
            match (next, capture_next(self, len as nat, answer)) {
                (Ok(step), Ok(expected)) => step == expected && (self.rank() > 0 ==> step.rank()
                    < self.rank()),
                (Err(error), Err(expected)) => error@ == expected,
                _ => false,
            },
    {
        match (self, answer) {
            (CaptureStep::CreateFile, Ok(_)) => if len > 0 {
                Ok(CaptureStep::ResizeFile)
            } else {
                Ok(CaptureStep::Finished)
            },
            (CaptureStep::CreateFile, Err(words)) => Err(failed("memfd_create failed: ", &words)),
            (CaptureStep::ResizeFile, Ok(_)) => Ok(CaptureStep::FillFile),
            (CaptureStep::ResizeFile, Err(words)) => Err(failed("ftruncate failed: ", &words)),
            (CaptureStep::FillFile, Ok(_)) => Ok(CaptureStep::Finished),
            (CaptureStep::FillFile, Err(words)) => Err(failed("mmap(memfd) failed: ", &words)),
            (CaptureStep::Finished, _) => Ok(CaptureStep::Finished),
        }
    }
}

/// The next piece of work when an image is put back.
#[derive(Copy, Clone, Debug, PartialEq, Eq, Structural)]
pub enum RestoreStep {
    /// Map the image's file over the first `len` bytes, which drops every byte
    /// that was written there.
    Remap { len: usize },
    /// Drop the `len` bytes from `start` on, so that they read as zero.
    Discard { start: usize, len: usize },
    /// The image is back.
    Finished,
}

/// What becomes of the bytes above the image: those that the memory shows are
/// dropped.
pub open spec fn discard_step(image_len: nat, shown: nat) -> RestoreStep {
    if shown > image_len {
        RestoreStep::Discard { start: image_len as usize, len: (shown - image_len) as usize }
    } else {
        RestoreStep::Finished
    }
}

/// The first step for a memory with this base that shows `shown` bytes, with an image
/// of `image_len` bytes taken when its base was `image_base`.
pub open spec fn restore_first(
    base: usize,
    shown: nat,
    image_base: usize,
    image_len: nat,
) -> Result<RestoreStep, ErrorModel> {
    if base != image_base {
        Err(ErrorModel::Generic("memory base moved since snapshot; cow restore is invalid"@))
    } else if image_len > 0 {
        Ok(RestoreStep::Remap { len: image_len as usize })
    } else {
        Ok(discard_step(image_len, shown))
    }
}

/// The step that follows when `step` went as `answer` says.
pub open spec fn restore_next(
    step: RestoreStep,
    shown: nat,
    image_len: nat,
    answer: Result<(), String>,
) -> Result<RestoreStep, ErrorModel> {
    match (step, answer) {
        (RestoreStep::Remap { .. }, Ok(_)) => Ok(discard_step(image_len, shown)),
        (RestoreStep::Remap { .. }, Err(words)) => Err(
            failure("MAP_FIXED cow remap failed: ", words@),
        ),
        (RestoreStep::Discard { .. }, Ok(_)) => Ok(RestoreStep::Finished),
        (RestoreStep::Discard { .. }, Err(words)) => Err(
            failure("madvise(MADV_DONTNEED) failed: ", words@),
        ),
        (RestoreStep::Finished, _) => Ok(RestoreStep::Finished),
    }
}

fn discard_after(image_len: usize, shown: usize) -> (step: RestoreStep)
    ensures
        step == discard_step(image_len as nat, shown as nat),
{
    if shown > image_len {
        RestoreStep::Discard { start: image_len, len: shown - image_len }
    } else {
        RestoreStep::Finished
    }
}

impl RestoreStep {
    /// How many steps may still follow.
    pub open spec fn rank(self) -> nat {
        match self {
            RestoreStep::Remap { .. } => 2,
            RestoreStep::Discard { .. } => 1,
            RestoreStep::Finished => 0,
        }
    }

    /// The first step; see [`restore_first`].
    pub fn first(base: usize, shown: usize, image_base: usize, image_len: usize) -> (step: Result<
        RestoreStep,
        MemoryError,
    >)
        ensures
            match (step, restore_first(base, shown as nat, image_base, image_len as nat)) {
                (Ok(step), Ok(expected)) => step == expected,
                (Err(error), Err(expected)) => error@ == expected,
                _ => false,
            },
    {
        if base != image_base {
            return Err(
                MemoryError::Generic(
                    "memory base moved since snapshot; cow restore is invalid".to_owned(),
                ),
            );
        }
        if image_len > 0 {
            Ok(RestoreStep::Remap { len: image_len })
        } else {
            Ok(discard_after(image_len, shown))
        }
    }

    /// The step that follows when this one went as `answer` says; see
    /// [`restore_next`].
    pub fn next(self, shown: usize, image_len: usize, answer: Result<(), String>) -> (next: Result<
        RestoreStep,
        MemoryError,
    >)
        ensures
            match (next, restore_next(self, shown as nat, image_len as nat, answer)) {
                (Ok(step), Ok(expected)) => step == expected && (self.rank() > 0 ==> step.rank()
                    < self.rank()),
                (Err(error), Err(expected)) => error@ == expected,
                _ => false,
            },
    {
        match (self, answer) {
            (RestoreStep::Remap { .. }, Ok(_)) => Ok(discard_after(image_len, shown)),
            (RestoreStep::Remap { .. }, Err(words)) => Err(
                failed("MAP_FIXED cow remap failed: ", &words),
            ),
            (RestoreStep::Discard { .. }, Ok(_)) => Ok(RestoreStep::Finished),
            (RestoreStep::Discard { .. }, Err(words)) => Err(
                failed("madvise(MADV_DONTNEED) failed: ", &words),
            ),
            (RestoreStep::Finished, _) => Ok(RestoreStep::Finished),
        }
    }
}

/// Capturing makes a file, gives it its length and fills it, in this order; an image
/// without bytes needs the file alone. A step that fails ends it with the words of the
/// operating system behind what failed.
pub proof fn capturing_goes_step_by_step(len: nat, done: Result<(), String>, words: String)
    requires
        done is Ok,
    ensures
        len > 0 ==> capture_next(CaptureStep::CreateFile, len, done) == Ok::<
            CaptureStep,
            ErrorModel,
        >(CaptureStep::ResizeFile),
        len == 0 ==> capture_next(CaptureStep::CreateFile, len, done) == Ok::<
            CaptureStep,
            ErrorModel,
        >(CaptureStep::Finished),
        capture_next(CaptureStep::ResizeFile, len, done) == Ok::<CaptureStep, ErrorModel>(
            CaptureStep::FillFile,
        ),
        capture_next(CaptureStep::FillFile, len, done) == Ok::<CaptureStep, ErrorModel>(
            CaptureStep::Finished,
        ),
        capture_next(CaptureStep::CreateFile, len, Err(words)) == Err::<CaptureStep, ErrorModel>(
            ErrorModel::Generic("memfd_create failed: "@ + words@),
        ),
        capture_next(CaptureStep::ResizeFile, len, Err(words)) == Err::<CaptureStep, ErrorModel>(
            ErrorModel::Generic("ftruncate failed: "@ + words@),
        ),
        capture_next(CaptureStep::FillFile, len, Err(words)) == Err::<CaptureStep, ErrorModel>(
            ErrorModel::Generic("mmap(memfd) failed: "@ + words@),
        ),
{
}

/// Putting an image back maps all of it over the memory, and then drops just the bytes
/// that the memory shows above. Nothing is done to a memory whose base is another one.
/// A step that fails ends it with the words of the operating system behind what failed.
pub proof fn restoring_covers_all_that_shows(
    base: usize,
    shown: usize,
    image_base: usize,
    image_len: usize,
    done: Result<(), String>,
    words: String,
)
    requires
        done is Ok,
    ensures
        restore_first(base, shown as nat, image_base, image_len as nat) is Ok <==> base
            == image_base,
        base == image_base && image_len > 0 ==> restore_first(
            base,
            shown as nat,
            image_base,
            image_len as nat,
        ) == Ok::<RestoreStep, ErrorModel>(RestoreStep::Remap { len: image_len }),
        base == image_base && image_len == 0 ==> restore_first(
            base,
            shown as nat,
            image_base,
            image_len as nat,
        ) == Ok::<RestoreStep, ErrorModel>(
            if shown > 0 {
                RestoreStep::Discard { start: 0, len: shown }
            } else {
                RestoreStep::Finished
            },
        ),
        shown <= image_len ==> restore_next(
            RestoreStep::Remap { len: image_len },
            shown as nat,
            image_len as nat,
            done,
        ) == Ok::<RestoreStep, ErrorModel>(RestoreStep::Finished),
        shown > image_len ==> (restore_next(
            RestoreStep::Remap { len: image_len },
            shown as nat,
            image_len as nat,
            done,
        ) matches Ok(RestoreStep::Discard { start, len }) && start == image_len && start + len
            == shown),
        forall|start: usize, len: usize|
            (#[trigger] restore_next(
                RestoreStep::Discard { start, len },
                shown as nat,
                image_len as nat,
                done,
            )) == Ok::<RestoreStep, ErrorModel>(RestoreStep::Finished),
        restore_next(
            RestoreStep::Remap { len: image_len },
            shown as nat,
            image_len as nat,
            Err(words),
        ) == Err::<RestoreStep, ErrorModel>(
            ErrorModel::Generic("MAP_FIXED cow remap failed: "@ + words@),
        ),
        forall|start: usize, len: usize|
            (#[trigger] restore_next(
                RestoreStep::Discard { start, len },
                shown as nat,
                image_len as nat,
                Err(words),
            )) == Err::<RestoreStep, ErrorModel>(
                ErrorModel::Generic("madvise(MADV_DONTNEED) failed: "@ + words@),
            ),
{
}

} // verus!
