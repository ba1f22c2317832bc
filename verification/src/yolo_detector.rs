//! The trigger detector: whether it can take frames, and the decoding of the
//! frames that it takes.

use vstd::prelude::*;
use base64::Engine;
use crate::text::{concat2, same_text};

verus! {

#[verifier::external_type_specification]
#[verifier::external_body]
pub struct ExDecodeError(base64::DecodeError);

/// The message of a decoding error, as `Display` for `base64::DecodeError`
/// writes it.
pub uninterp spec fn decode_error_text(error: base64::DecodeError) -> Seq<char>;

/// What the standard base64 engine makes of a text: the bytes it stands for,
/// or the message of the error.
pub uninterp spec fn base64_decode(text: Seq<char>) -> Result<Seq<u8>, Seq<char>>;

/// Calls `decode` of `base64::engine::general_purpose::STANDARD`. Believed:
/// the outcome is a function of the text alone, named `base64_decode`.
#[verifier::external_body]
fn decode_standard(text: &str) -> (decoded: Result<Vec<u8>, base64::DecodeError>)
    ensures
        match decoded {
            Ok(bytes) => base64_decode(text@) == Ok::<Seq<u8>, Seq<char>>(bytes@),
            Err(error) => base64_decode(text@) == Err::<Seq<u8>, Seq<char>>(
                decode_error_text(error),
            ),
        },
{
    base64::engine::general_purpose::STANDARD.decode(text)
}

/// Calls `to_string` on a `base64::DecodeError`. Believed: the text is the
/// error's message.
#[verifier::external_body]
fn decode_error_message(error: &base64::DecodeError) -> (text: String)
    ensures
        text@ == decode_error_text(*error),
{
    error.to_string()
}

/// The detector that decides when a frame is worth an analysis.
pub struct YoloDetector {
    model_loaded: bool,
}

/// The image that a frame holds, for a detector in the given state.
pub open spec fn frame_of(loaded: bool, frame_base64: Seq<char>) -> Result<Seq<u8>, Seq<char>> {
    if !loaded {
        Err("YOLO model not loaded"@)
    } else {
        match base64_decode(frame_base64) {
            Ok(bytes) => Ok(bytes),
            Err(detail) => Err("Failed to decode image: "@ + detail),
        }
    }
}

impl YoloDetector {
    /// The model is loaded.
    pub closed spec fn loaded(&self) -> bool {
        self.model_loaded
    }

    /// A detector whose model is not loaded yet.
    pub fn new() -> (detector: YoloDetector)
        ensures
            !detector.loaded(),
    {
        YoloDetector { model_loaded: false }
    }

    /// Loads the model. It cannot fail.
    pub fn initialize(&mut self) -> (outcome: Result<(), String>)
        ensures
            outcome is Ok,
            final(self).loaded(),
    {
        self.model_loaded = true;
        Ok(())
    }

    /// Is the model loaded?
    pub fn is_ready(&self) -> (ready: bool)
        ensures
            ready == self.loaded(),
    {
        self.model_loaded
    }

    /// The image of a frame, for the detector to look at: refused while the
    /// model is not loaded, and where the frame is no base64.
    pub fn decode_frame(&self, frame_base64: &str) -> (image: Result<Vec<u8>, String>)
        ensures
            match image {
                Ok(bytes) => frame_of(self.loaded(), frame_base64@) == Ok::<Seq<u8>, Seq<char>>(
                    bytes@,
                ),
                Err(message) => frame_of(self.loaded(), frame_base64@) == Err::<
                    Seq<u8>,
                    Seq<char>,
                >(message@),
            },
    {
        if !self.model_loaded {
            return Err("YOLO model not loaded".to_owned());
        }
        match decode_standard(frame_base64) {
            Ok(bytes) => Ok(bytes),
            Err(error) => {
                let detail = decode_error_message(&error);
                Err(concat2("Failed to decode image: ", detail.as_str()))
            },
        }
    }
}

/// How many objects of one class were detected.
pub struct ClassCount {
    pub class_name: String,
    pub count: usize,
}

/// The class names as texts.
pub open spec fn names(classes: Seq<String>) -> Seq<Seq<char>> {
    Seq::new(classes.len(), |i: int| classes[i]@)
}

/// How often a class occurs among the classes detected.
pub open spec fn occurrences(classes: Seq<Seq<char>>, class: Seq<char>) -> nat
    decreases classes.len(),
{
    if classes.len() == 0 {
        0
    } else {
        let here: nat = if classes.last() == class {
            1
        } else {
            0
        };
        occurrences(classes.drop_last(), class) + here
    }
}

/// A class that was detected occurs at least once, and no class occurs more
/// often than there are detections.
pub proof fn lemma_occurrences_bounds(classes: Seq<Seq<char>>, class: Seq<char>)
    ensures
        occurrences(classes, class) <= classes.len(),
        classes.contains(class) ==> occurrences(classes, class) >= 1,
    decreases classes.len(),
{
    if classes.len() > 0 {
        lemma_occurrences_bounds(classes.drop_last(), class);
        if classes.contains(class) && classes.last() != class {
            let at = choose|i: int| 0 <= i < classes.len() && classes[i] == class;
            assert(classes.drop_last()[at] == class);
        }
    }
}

/// How often a class occurs among the classes detected.
pub fn count_class(classes: &Vec<String>, class: &str) -> (count: usize)
    ensures
        count == occurrences(names(classes@), class@),
{
    let n: usize = classes.len();
    let ghost all = names(classes@);
    let mut count: usize = 0;
    let mut i: usize = 0;
    while i < n
        invariant
            n == classes@.len(),
            all == names(classes@),
            0 <= i <= n,
            count <= i,
            count == occurrences(all.subrange(0, i as int), class@),
        decreases n - i,
    {
        proof {
            assert(all.subrange(0, i + 1).drop_last() =~= all.subrange(0, i as int));
            assert(all.subrange(0, i + 1).last() == classes@[i as int]@);
        }
        if same_text(classes[i].as_str(), class) {
            count += 1;
        }
        i += 1;
    }
    proof {
        assert(all.subrange(0, n as int) =~= all);
    }
    count
}

/// The class is among those counted.
pub open spec fn counted(counts: Seq<ClassCount>, class: Seq<char>) -> bool {
    exists|k: int| 0 <= k < counts.len() && (#[trigger] counts[k]).class_name@ == class
}

/// Is the class among those counted?
fn is_counted(counts: &Vec<ClassCount>, class: &str) -> (found: bool)
    ensures
        found == counted(counts@, class@),
{
    let n: usize = counts.len();
    let mut k: usize = 0;
    while k < n
        invariant
            n == counts@.len(),
            0 <= k <= n,
            forall|j: int| 0 <= j < k ==> (#[trigger] counts@[j]).class_name@ != class@,
        decreases n - k,
    {
        if same_text(counts[k].class_name.as_str(), class) {
            return true;
        }
        k += 1;
    }
    false
}

/// The classes detected, each once, with the number of its detections.
pub fn count_classes(classes: &Vec<String>) -> (counts: Vec<ClassCount>)
    ensures
        forall|k: int|
            0 <= k < counts@.len() ==> (#[trigger] counts@[k]).count == occurrences(
                names(classes@),
                counts@[k].class_name@,
            ) && counts@[k].count >= 1,
        forall|i: int| 0 <= i < classes@.len() ==> counted(counts@, (#[trigger] classes@[i])@),
        forall|k: int, l: int|
            0 <= k < l < counts@.len() ==> (#[trigger] counts@[k]).class_name@ != (
            #[trigger] counts@[l]).class_name@,
{
    let n: usize = classes.len();
    let ghost all = names(classes@);
    let mut counts: Vec<ClassCount> = Vec::new();
    let mut i: usize = 0;
    while i < n
        invariant
            n == classes@.len(),
            all == names(classes@),
            0 <= i <= n,
            forall|k: int|
                0 <= k < counts@.len() ==> (#[trigger] counts@[k]).count == occurrences(
                    all,
                    counts@[k].class_name@,
                ) && counts@[k].count >= 1,
            forall|j: int| 0 <= j < i ==> counted(counts@, (#[trigger] classes@[j])@),
            forall|k: int, l: int|
                0 <= k < l < counts@.len() ==> (#[trigger] counts@[k]).class_name@ != (
                #[trigger] counts@[l]).class_name@,
        decreases n - i,
    {
        let class = classes[i].as_str();
        if !is_counted(&counts, class) {
            let count = count_class(classes, class);
            let ghost before = counts@;
            proof {
                assert(all[i as int] == class@);
                assert(all.contains(class@));
                lemma_occurrences_bounds(all, class@);
            }
            counts.push(ClassCount { class_name: classes[i].clone(), count });
            proof {
                let last = counts@.len() - 1;
                assert(counts@[last].class_name@ == class@);
                assert forall|j: int| 0 <= j < i + 1 implies counted(
                    counts@,
                    (#[trigger] classes@[j])@,
                ) by {
                    if j < i {
                        assert(counted(before, classes@[j]@));
                        let k = choose|k: int|
                            0 <= k < before.len() && (#[trigger] before[k]).class_name@
                                == classes@[j]@;
                        assert(counts@[k] == before[k]);
                    } else {
                        assert(counts@[last].class_name@ == classes@[j]@);
                    }
                }
                assert forall|k: int, l: int| 0 <= k < l < counts@.len() implies (
                #[trigger] counts@[k]).class_name@ != (#[trigger] counts@[l]).class_name@ by {
                    assert(counts@[k] == before[k]);
                    if l < last {
                        assert(counts@[l] == before[l]);
                    }
                }
            }
        }
        i += 1;
    }
    counts
}

/// A detector with its model loaded.
pub fn initialize_yolo() -> (outcome: Result<YoloDetector, String>)
    ensures
        outcome is Ok,
        outcome.unwrap().loaded(),
{
    let mut detector = YoloDetector::new();
    match detector.initialize() {
        Ok(_) => Ok(detector),
        Err(message) => Err(message),
    }
}

} // verus!
