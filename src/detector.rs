use vstd::prelude::*;

verus! {

/// What one captured frame led to.
#[derive(PartialEq, Eq, Structural, Clone, Copy, Debug)]
pub enum Outcome {
    /// The first captured frame became the reference; nothing was compared.
    Bootstrapped,
    /// The frame was compared and no changed region was found.
    Unchanged,
    /// Motion was confirmed. The frame is to be recorded, stamped with the
    /// number of frames that passed since the previous confirmation.
    Motion { frames_since_last: u64 },
}

impl Outcome {
    /// Whether the frame that led to this outcome goes to the recording.
    pub open spec fn spec_records(self) -> bool {
        self is Motion
    }

    pub fn records(&self) -> (r: bool)
        ensures
            r == self.spec_records(),
    {
        match self {
            Outcome::Motion { .. } => true,
            _ => false,
        }
    }
}

/// The counter after one more compared or bootstrapped frame.
pub open spec fn counter_step(counter: nat, confirmed: bool) -> nat {
    if confirmed {
        0
    } else {
        counter + 1
    }
}

/// The counter after a run of frames from a new detector, given for each
/// frame whether motion was confirmed on it.
pub open spec fn counter_after(confirmed: Seq<bool>) -> nat
    decreases confirmed.len(),
{
    if confirmed.len() == 0 {
        0
    } else {
        counter_step(counter_after(confirmed.drop_last()), confirmed.last())
    }
}

/// The frame counter counts the frames since the last confirmed motion, or
/// since the start where none was confirmed: it is at most the number of
/// frames, no frame among the last `counter_after` ones confirmed motion, and
/// the one before them did. Right after a confirmation it is zero.
pub proof fn lemma_counter_counts_frames_since_motion(confirmed: Seq<bool>)
    ensures
        counter_after(confirmed) <= confirmed.len(),
        forall|i: int|
            confirmed.len() - counter_after(confirmed) <= i < confirmed.len() ==> !confirmed[i],
        counter_after(confirmed) < confirmed.len() ==> confirmed[confirmed.len()
            - counter_after(confirmed) - 1],
        confirmed.len() > 0 && confirmed.last() ==> counter_after(confirmed) == 0,
    decreases confirmed.len(),
{
    if confirmed.len() > 0 {
        let prefix = confirmed.drop_last();
        lemma_counter_counts_frames_since_motion(prefix);
        assert forall|i: int|
            confirmed.len() - counter_after(confirmed) <= i < confirmed.len() implies !confirmed[i] by {
            if i < confirmed.len() - 1 {
                assert(confirmed[i] == prefix[i]);
            }
        }
        if counter_after(confirmed) < confirmed.len() && !confirmed.last() {
            assert(confirmed[confirmed.len() - counter_after(confirmed) - 1]
                == prefix[prefix.len() - counter_after(prefix) - 1]);
        }
    }
}

/// The loop's state across iterations: the reference frame, absent only before
/// the first captured frame, and the number of frames since the last
/// confirmed motion.
pub struct Detector<F> {
    pub reference: Option<F>,
    pub frame_counter: u64,
}

impl<F> Detector<F> {
    /// A detector that has seen no frame yet.
    pub fn new() -> (d: Self)
        ensures
            d.reference is None,
            d.frame_counter == 0,
    {
        Detector { reference: None, frame_counter: 0 }
    }

    /// Whether the next frame is to be compared with a reference frame.
    pub fn has_reference(&self) -> (r: bool)
        ensures
            r == self.reference is Some,
    {
        self.reference.is_some()
    }

    /// The frame that the next captured frame is compared with.
    pub fn reference(&self) -> (r: Option<&F>)
        ensures
            r == match self.reference {
                Some(f) => Some(&f),
                None => None::<&F>,
            },
    {
        match &self.reference {
            Some(f) => Some(f),
            None => None,
        }
    }

    /// Takes one captured frame in its processed form. `contours` is the
    /// number of external changed regions found between `processed` and the
    /// reference frame, or `None` where there is no reference frame yet.
    ///
    /// Motion is confirmed exactly when a comparison found a region. The
    /// reference frame becomes `processed` exactly on a confirmation or on the
    /// first frame, and stays otherwise. The counter is reset to zero on a
    /// confirmation and advances by one on every other frame.
    pub fn observe(&mut self, processed: F, contours: Option<usize>) -> (o: Outcome)
        requires
            contours is Some <==> old(self).reference is Some,
            old(self).frame_counter < u64::MAX,
        ensures
            (o is Motion) <==> (contours is Some && contours->0 > 0),
            (o is Bootstrapped) <==> old(self).reference is None,
            final(self).reference is Some,
            o is Motion ==> o->frames_since_last == old(self).frame_counter,
            final(self).reference == (if o is Unchanged {
                old(self).reference
            } else {
                Some(processed)
            }),
            final(self).frame_counter as nat == counter_step(
                old(self).frame_counter as nat,
                o is Motion,
            ),
    {
        match contours {
            None => {
                self.reference = Some(processed);
                self.frame_counter = self.frame_counter + 1;
                Outcome::Bootstrapped
            },
            Some(n) => {
                if n > 0 {
                    let since = self.frame_counter;
                    self.reference = Some(processed);
                    self.frame_counter = 0;
                    Outcome::Motion { frames_since_last: since }
                } else {
                    self.frame_counter = self.frame_counter + 1;
                    Outcome::Unchanged
                }
            },
        }
    }
}

} // verus!
