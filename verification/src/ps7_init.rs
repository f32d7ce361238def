//! Register initialisation tables: what each operation expects of a
//! register, the value a masked write leaves, and which operations still
//! decide a register's final value.
use vstd::prelude::*;

verus! {

#[derive(Clone, Copy, Debug, PartialEq, Eq, Structural)]
pub enum InitOp {
    /// Write `value & mask` to the masked bits at an address.
    MaskWrite(usize, usize, usize),
    /// Wait until a masked bit at an address is set.
    MaskPoll(usize, usize),
    /// Wait until a counter at an address reaches a delay.
    MaskDelay(usize, usize),
}

pub open spec fn op_address(op: InitOp) -> usize {
    match op {
        InitOp::MaskWrite(a, _, _) => a,
        InitOp::MaskPoll(a, _) => a,
        InitOp::MaskDelay(a, _) => a,
    }
}

/// The mismatch of an operation against the value `actual` read at its
/// address: for a masked write, the masked value against the value written;
/// for a poll, the masked value against the mask; none when they agree, and
/// none for a delay.
pub open spec fn op_difference(op: InitOp, actual: usize) -> Option<(usize, usize)> {
    match op {
        InitOp::MaskWrite(_, mask, expected) => if actual & mask == expected {
            None
        } else {
            Some((actual & mask, expected))
        },
        InitOp::MaskPoll(_, mask) => if actual & mask == mask {
            None
        } else {
            Some((actual & mask, mask))
        },
        InitOp::MaskDelay(_, _) => None,
    }
}

/// Processor clock assumed for delays, in Hz.
pub const APU_FREQ: usize = 666666687;

impl InitOp {
    pub fn address(&self) -> (r: usize)
        ensures
            r == op_address(*self),
    {
        match self {
            InitOp::MaskWrite(address, _, _) => *address,
            InitOp::MaskPoll(address, _) => *address,
            InitOp::MaskDelay(address, _) => *address,
        }
    }

    /// The mismatch against `actual`, the value read at the address.
    pub fn difference(&self, actual: usize) -> (r: Option<(usize, usize)>)
        ensures
            r == op_difference(*self, actual),
    {
        let expected = match self {
            InitOp::MaskWrite(_, mask, expected) => Some((*mask, *expected)),
            InitOp::MaskPoll(_, mask) => Some((*mask, *mask)),
            _ => None,
        };
        match expected {
            Some((mask, expected)) => {
                if actual & mask == expected {
                    None
                } else {
                    Some((actual & mask, expected))
                }
            },
            None => None,
        }
    }

    /// The value a masked write leaves in a register that held `current`:
    /// the written value in the masked bits, `current` elsewhere. Other
    /// operations do not write and leave `current`.
    pub fn written_value(&self, current: usize) -> (r: usize)
        ensures
            match *self {
                InitOp::MaskWrite(_, mask, val) => r == (val & mask) | (current & !mask),
                _ => r == current,
            },
    {
        match self {
            InitOp::MaskWrite(_, mask, val) => (*val & *mask) | (current & !*mask),
            _ => current,
        }
    }

    /// Whether a poll is satisfied by the value `current`: some masked bit is
    /// set. Operations other than a poll never wait on it.
    pub fn poll_done(&self, current: usize) -> (r: bool)
        ensures
            match *self {
                InitOp::MaskPoll(_, mask) => r == (current & mask != 0),
                _ => r,
            },
    {
        match self {
            InitOp::MaskPoll(_, mask) => current & *mask != 0,
            _ => true,
        }
    }
}

/// The counter value a delay of `delay` milliseconds waits for, at half the
/// processor clock.
pub fn get_number_of_cycles_for_delay(delay: usize) -> (r: usize)
    requires
        APU_FREQ * delay <= usize::MAX,
    ensures
        r == APU_FREQ * delay / 2000,
{
    APU_FREQ * delay / (2 * 1000)
}

proof fn lemma_mask_bits(current: usize, mask: usize, val: usize)
    by (bit_vector)
    ensures
        ((((val & mask) | (current & !mask)) & mask) == val) == ((val & mask) == val),
{
}

/// After a masked write, the register shows no difference to that write,
/// whatever it held before, exactly when the written value lies within the
/// mask.
pub proof fn lemma_masked_write_matches(address: usize, mask: usize, val: usize, current: usize)
    ensures
        op_difference(InitOp::MaskWrite(address, mask, val), (val & mask) | (current & !mask)) is None
            <==> (val & mask) == val,
{
    lemma_mask_bits(current, mask, val);
}

/// Operation `i` is the last of `ops` at its address.
pub open spec fn last_at_address(ops: Seq<InitOp>, i: int) -> bool {
    forall|j: int| i < j < ops.len() ==> op_address(#[trigger] ops[j]) != op_address(ops[i])
}

/// The indices, in increasing order, of the operations whose registers are
/// not overwritten later in the table: those whose differences are worth
/// reporting.
pub fn ops_to_report(ops: &Vec<InitOp>) -> (r: Vec<usize>)
    ensures
        forall|k: int| 0 <= k < r@.len() ==> r@[k] < ops@.len() && last_at_address(ops@, r@[k] as int),
        forall|k: int, l: int| 0 <= k < l < r@.len() ==> r@[k] < r@[l],
        forall|i: int| 0 <= i < ops@.len() && last_at_address(ops@, i) ==> r@.contains(i as usize),
{
    let mut out: Vec<usize> = Vec::new();
    let mut i: usize = 0;
    while i < ops.len()
        invariant
            i <= ops@.len(),
            forall|k: int| 0 <= k < out@.len() ==> out@[k] < i && last_at_address(ops@, out@[k] as int),
            forall|k: int, l: int| 0 <= k < l < out@.len() ==> out@[k] < out@[l],
            forall|m: int| 0 <= m < i && last_at_address(ops@, m) ==> out@.contains(m as usize),
        decreases ops@.len() - i,
    {
        let address = ops[i].address();
        let mut overwritten_later = false;
        let mut j: usize = i + 1;
        while j < ops.len()
            invariant
                i < ops@.len(),
                i + 1 <= j <= ops@.len(),
                address == op_address(ops@[i as int]),
                overwritten_later == exists|m: int| i < m < j && op_address(#[trigger] ops@[m]) == address,
            decreases ops@.len() - j,
        {
            if ops[j].address() == address {
                overwritten_later = true;
            }
            j = j + 1;
        }
        if !overwritten_later {
            let ghost before = out@;
            out.push(i);
            proof {
                assert forall|m: int| 0 <= m < i + 1 && last_at_address(ops@, m) implies out@.contains(m as usize) by {
                    if m < i {
                        let k = choose|k: int| 0 <= k < before.len() && before[k] == m as usize;
                        assert(out@[k] == m as usize);
                    } else {
                        assert(out@[before.len() as int] == i);
                    }
                }
            }
        } else {
            proof {
                let m = choose|m: int| i < m < ops@.len() && op_address(#[trigger] ops@[m]) == address;
                assert(!last_at_address(ops@, i as int));
            }
        }
        i = i + 1;
    }
    out
}

} // verus!
