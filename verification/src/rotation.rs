use vstd::prelude::*;

verus! {

/// Abstract state of the rotating file sink: how many bytes the active file
/// holds and what the single archive slot holds, if anything.
///
/// That at most one archived generation exists at any time is stated by the
/// shape of `archived_bytes` itself: a rotation replaces the slot.
pub struct RotationState {
    /// Active-file size, in bytes, at which the next write rotates it.
    pub threshold_bytes: u64,
    /// Bytes written to the active file so far.
    pub active_bytes: u64,
    /// Size of the archived generation, or nothing before the first rotation.
    pub archived_bytes: Option<u64>,
}

impl RotationState {
    /// A fresh sink: an empty active file and nothing archived.
    pub fn new(threshold_bytes: u64) -> (r: RotationState)
        ensures
            r.threshold_bytes == threshold_bytes,
            r.active_bytes == 0,
            r.archived_bytes is None,
    {
        RotationState { threshold_bytes, active_bytes: 0, archived_bytes: None }
    }

    /// Whether the next write must rotate: the cumulative bytes written to
    /// the active file have reached the threshold.
    pub open spec fn spec_must_rotate(self) -> bool {
        self.active_bytes >= self.threshold_bytes
    }

    /// The state after writing a record of `record_bytes` bytes: when the
    /// active file has reached the threshold, its content moves to the
    /// archive slot — replacing whatever was there — and the active file is
    /// recreated holding only the new record; otherwise the record is
    /// appended.
    pub open spec fn spec_write(self, record_bytes: u64) -> RotationState {
        if self.spec_must_rotate() {
            RotationState {
                active_bytes: record_bytes,
                archived_bytes: Some(self.active_bytes),
                ..self
            }
        } else {
            RotationState { active_bytes: (self.active_bytes + record_bytes) as u64, ..self }
        }
    }

    /// Accounts for a write of `record_bytes` bytes to the sink and reports
    /// whether that write triggered a rotation.
    pub fn write(&mut self, record_bytes: u64) -> (rotated: bool)
        requires
            !old(self).spec_must_rotate() ==> old(self).active_bytes + record_bytes <= u64::MAX,
        ensures
            *final(self) == old(self).spec_write(record_bytes),
            rotated == old(self).spec_must_rotate(),
    {
        if self.active_bytes >= self.threshold_bytes {
            self.archived_bytes = Some(self.active_bytes);
            self.active_bytes = record_bytes;
            true
        } else {
            self.active_bytes = self.active_bytes + record_bytes;
            false
        }
    }
}

/// Rotation law. A write below the threshold only grows the active file and
/// leaves the archive slot alone. Once the cumulative bytes in the active
/// file have reached the threshold, the next write moves exactly the active
/// content into the single archive slot — replacing the previous generation,
/// if any — and starts the active file afresh with the new record alone.
pub proof fn lemma_rotation_law(st: RotationState, record_bytes: u64)
    requires
        !st.spec_must_rotate() ==> st.active_bytes + record_bytes <= u64::MAX,
    ensures
        !st.spec_must_rotate() ==> {
            let next = st.spec_write(record_bytes);
            &&& next.archived_bytes == st.archived_bytes
            &&& next.active_bytes == st.active_bytes + record_bytes
        },
        st.spec_must_rotate() ==> {
            let next = st.spec_write(record_bytes);
            &&& next.archived_bytes == Some(st.active_bytes)
            &&& next.active_bytes == record_bytes
        },
        st.spec_write(record_bytes).threshold_bytes == st.threshold_bytes,
{
}

} // verus!
