use vstd::prelude::*;

use crate::commands::{td_model, Action};
use crate::config::{enabled_inverters_of, opt_or, ConfigWrapper, Inverter, DEFAULT_BLOCK_SIZE};
use crate::packet::{le16, DeviceFunction, Packet, PacketModel, TranslatedData};
use crate::serial::Serial;
use crate::serial_map::SerialMap;

verus! {

/// Seconds between two time synchronisations.
pub const TIMESYNC_INTERVAL_S: u64 = 60;

/// Last holding register read by the on-connect snapshot.
pub const HOLD_SNAPSHOT_LIMIT: u16 = 240;

/// Last input register read by a poll or the on-connect snapshot.
pub const INPUT_LIMIT: u16 = 200;

/// Starts of the blocks `s, s + step, ...` that begin at or before `limit`.
pub open spec fn block_starts_from(s: nat, limit: nat, step: nat) -> Seq<u16>
    decreases
            (if s > limit {
                0
            } else {
                limit + 1 - s
            }),
{
    if step == 0 || s > limit {
        Seq::empty()
    } else {
        seq![s as u16] + block_starts_from(s + step, limit, step)
    }
}

/// The block starts `0, step, 2 * step, ...` up to `limit`; none for a zero step.
pub fn block_starts(limit: u16, step: u16) -> (r: Vec<u16>)
    ensures
        r@ == block_starts_from(0, limit as nat, step as nat),
{
    let mut r: Vec<u16> = Vec::new();
    if step == 0 {
        return r;
    }
    let mut s: u32 = 0;
    while s <= limit as u32
        invariant
            step > 0,
            s <= limit as u32 + step as u32,
            r@ + block_starts_from(s as nat, limit as nat, step as nat) == block_starts_from(
                0,
                limit as nat,
                step as nat,
            ),
        decreases limit as u32 + step as u32 - s,
    {
        let ghost before = r@;
        r.push(s as u16);
        assert(before + block_starts_from(s as nat, limit as nat, step as nat) =~= r@
            + block_starts_from((s + step) as nat, limit as nat, step as nat));
        s = s + step as u32;
    }
    assert(r@ + block_starts_from(s as nat, limit as nat, step as nat) =~= r@);
    r
}

/// One read of `size` registers at each start.
pub open spec fn block_reads(inv: Inverter, f: DeviceFunction, starts: Seq<u16>, size: u16) -> Seq<
    PacketModel,
> {
    starts.map_values(|s: u16| td_model(inv, f, s, le16(size)))
}

/// The `k`-th time slot read by the on-connect snapshot.
pub open spec fn snapshot_slot(k: int) -> Action {
    let n = (k / 4 + 1) as u16;
    if k % 4 == 0 {
        Action::AcCharge(n)
    } else if k % 4 == 1 {
        Action::ChargePriority(n)
    } else if k % 4 == 2 {
        Action::ForcedDischarge(n)
    } else {
        Action::AcFirst(n)
    }
}

pub open spec fn block_size_of(inv: Inverter) -> u16 {
    opt_or(inv.register_block_size, DEFAULT_BLOCK_SIZE)
}

/// The input-register reads of one poll.
pub open spec fn poll_plan(inv: Inverter) -> Seq<PacketModel> {
    block_reads(
        inv,
        DeviceFunction::ReadInput,
        block_starts_from(0, INPUT_LIMIT as nat, block_size_of(inv) as nat),
        block_size_of(inv),
    )
}

/// The block reads made when an inverter connects: holding blocks, then input blocks.
/// The holding blocks are not held to the known-block ranges. The time slots follow, as
/// time-slot commands (`snapshot_slots`).
pub open spec fn connect_plan(inv: Inverter) -> Seq<PacketModel> {
    block_reads(
        inv,
        DeviceFunction::ReadHold,
        block_starts_from(0, HOLD_SNAPSHOT_LIMIT as nat, block_size_of(inv) as nat),
        block_size_of(inv),
    ) + poll_plan(inv)
}

fn push_block_reads(
    out: &mut Vec<Packet>,
    datalog: Serial,
    serial: Serial,
    f: DeviceFunction,
    starts: &Vec<u16>,
    size: u16,
    Ghost(inv): Ghost<Inverter>,
)
    requires
        inv.datalog == Some(datalog),
        inv.serial == Some(serial),
    ensures
        final(out)@.map_values(|p: Packet| p@) == old(out)@.map_values(|p: Packet| p@) + block_reads(
            inv,
            f,
            starts@,
            size,
        ),
{
    let mut i: usize = 0;
    while i < starts.len()
        invariant
            inv.datalog == Some(datalog),
            inv.serial == Some(serial),
            i <= starts@.len(),
            out@.map_values(|p: Packet| p@) == old(out)@.map_values(|p: Packet| p@) + block_reads(
                inv,
                f,
                starts@.subrange(0, i as int),
                size,
            ),
        decreases starts@.len() - i,
    {
        let ghost prev = out@;
        let mut values: Vec<u8> = Vec::new();
        values.push((size % 256) as u8);
        values.push((size / 256) as u8);
        assert(values@ =~= le16(size));
        let p = Packet::TranslatedData(
            TranslatedData {
                datalog,
                inverter: serial,
                device_function: f,
                register: starts[i],
                values,
            },
        );
        let ghost pv = p@;
        out.push(p);
        assert(out@.map_values(|p: Packet| p@) =~= prev.map_values(|p: Packet| p@).push(pv));
        assert(block_reads(inv, f, starts@.subrange(0, i + 1), size) =~= block_reads(
            inv,
            f,
            starts@.subrange(0, i as int),
            size,
        ).push(pv));
        i = i + 1;
    }
    assert(starts@.subrange(0, starts@.len() as int) =~= starts@);
}

/// The reads of one input poll of `inv`, or `None` when its datalog or serial is unknown.
pub fn poll_requests(inv: &Inverter) -> (r: Option<Vec<Packet>>)
    ensures
        r is Some <==> (inv.datalog is Some && inv.serial is Some),
        r matches Some(v) ==> v@.map_values(|p: Packet| p@) == poll_plan(*inv),
{
    let (datalog, serial) = match (inv.datalog, inv.serial) {
        (Some(d), Some(s)) => (d, s),
        _ => {
            return None;
        },
    };
    let size = inv.register_block_size();
    let starts = block_starts(INPUT_LIMIT, size);
    let mut out: Vec<Packet> = Vec::new();
    push_block_reads(&mut out, datalog, serial, DeviceFunction::ReadInput, &starts, size, Ghost(*inv));
    assert(out@.map_values(|p: Packet| p@) =~= poll_plan(*inv));
    Some(out)
}

/// The reads to make when `inv` connects, or `None` when it does not ask for them or its
/// datalog or serial is unknown.
pub fn connect_requests(inv: &Inverter) -> (r: Option<Vec<Packet>>)
    ensures
        r is Some <==> (opt_or(inv.publish_holdings_on_connect, false) && inv.datalog is Some
            && inv.serial is Some),
        r matches Some(v) ==> v@.map_values(|p: Packet| p@) == connect_plan(*inv),
{
    if !inv.publish_holdings_on_connect() {
        return None;
    }
    let (datalog, serial) = match (inv.datalog, inv.serial) {
        (Some(d), Some(s)) => (d, s),
        _ => {
            return None;
        },
    };
    let size = inv.register_block_size();
    let mut out: Vec<Packet> = Vec::new();
    assert(out@.map_values(|p: Packet| p@) =~= Seq::<PacketModel>::empty());
    let holds = block_starts(HOLD_SNAPSHOT_LIMIT, size);
    push_block_reads(&mut out, datalog, serial, DeviceFunction::ReadHold, &holds, size, Ghost(*inv));
    let inputs = block_starts(INPUT_LIMIT, size);
    push_block_reads(&mut out, datalog, serial, DeviceFunction::ReadInput, &inputs, size, Ghost(*inv));
    assert(out@.map_values(|p: Packet| p@) =~= connect_plan(*inv));
    Some(out)
}

/// The time slots read when an inverter connects: for each slot 1 to 3, AC charge,
/// charge priority, forced discharge and AC first.
pub fn snapshot_slots() -> (r: Vec<Action>)
    ensures
        r@.len() == 12,
        forall|k: int| 0 <= k < 12 ==> #[trigger] r@[k] == snapshot_slot(k),
{
    let mut r: Vec<Action> = Vec::new();
    let mut n: u16 = 1;
    while n <= 3
        invariant
            1 <= n <= 4,
            r@.len() == 4 * (n - 1),
            forall|k: int| 0 <= k < r@.len() ==> #[trigger] r@[k] == snapshot_slot(k),
        decreases 4 - n,
    {
        r.push(Action::AcCharge(n));
        r.push(Action::ChargePriority(n));
        r.push(Action::ForcedDischarge(n));
        r.push(Action::AcFirst(n));
        n = n + 1;
    }
    r
}

/// Decides when each inverter is next polled: every inverter on its own interval (its
/// configured one, else the global one).
pub struct Scheduler {
    pub config: ConfigWrapper,
    /// When each datalog was last polled, in seconds.
    pub last_read: SerialMap<u64>,
}

impl Scheduler {
    pub open spec fn wf(&self) -> bool {
        self.last_read.wf()
    }

    pub fn new(config: ConfigWrapper) -> (r: Scheduler)
        ensures
            r.wf(),
            r.config == config,
            r.last_read.view() == Map::<Seq<u8>, u64>::empty(),
    {
        Scheduler { config, last_read: SerialMap::new() }
    }

    /// The poll interval of `inv`, in seconds.
    pub fn interval_for(&self, inv: &Inverter) -> (r: u64)
        ensures
            r == opt_or(inv.register_read_interval, self.config.config.register_read_interval),
    {
        match inv.register_read_interval {
            Some(s) => s,
            None => self.config.config.register_read_interval,
        }
    }

    /// Whether `inv` is due for a poll at `now_s`: never polled, or its interval has
    /// passed since the last poll. An inverter without datalog is never due.
    pub fn is_due(&self, inv: &Inverter, now_s: u64) -> (r: bool)
        requires
            self.wf(),
        ensures
            r == due_at(self.last_read.view(), self.config.config.register_read_interval, now_s)(
                *inv,
            ),
    {
        match inv.datalog {
            None => false,
            Some(d) => match self.last_read.get(&d) {
                None => true,
                Some(last) => {
                    let interval = self.interval_for(inv);
                    (now_s as u128) >= (*last as u128) + (interval as u128)
                },
            },
        }
    }

    /// Records a poll of `datalog` at `now_s`.
    pub fn mark_read(&mut self, datalog: Serial, now_s: u64)
        requires
            old(self).wf(),
        ensures
            final(self).wf(),
            final(self).config == old(self).config,
            final(self).last_read.view() == old(self).last_read.view().insert(datalog@, now_s),
    {
        self.last_read.insert(datalog, now_s);
    }

    /// The enabled inverters due for a poll at `now_s`, in configuration order.
    pub fn due_inverters(&self, now_s: u64) -> (r: Vec<Inverter>)
        requires
            self.wf(),
        ensures
            r@ == enabled_inverters_of(self.config.config.inverters@).filter(
                due_at(self.last_read.view(), self.config.config.register_read_interval, now_s),
            ),
    {
        let all = self.config.enabled_inverters();
        let ghost pred = due_at(
            self.last_read.view(),
            self.config.config.register_read_interval,
            now_s,
        );
        let mut r: Vec<Inverter> = Vec::new();
        let mut i: usize = 0;
        proof {
            reveal(Seq::filter);
        }
        assert(all@.subrange(0, 0) =~= Seq::<Inverter>::empty());
        while i < all.len()
            invariant
                self.wf(),
                pred == due_at(self.last_read.view(), self.config.config.register_read_interval, now_s),
                i <= all@.len(),
                r@ == all@.subrange(0, i as int).filter(pred),
            decreases all@.len() - i,
        {
            proof {
                reveal(Seq::filter);
                assert(all@.subrange(0, i + 1).drop_last() =~= all@.subrange(0, i as int));
            }
            if self.is_due(&all[i], now_s) {
                r.push(all[i].copied());
            }
            i = i + 1;
        }
        assert(all@.subrange(0, all@.len() as int) =~= all@);
        r
    }
}

/// Whether an inverter is due for a poll at `now`, given when each datalog was last
/// polled and the global interval.
pub open spec fn due_at(last: Map<Seq<u8>, u64>, global: u64, now: u64) -> spec_fn(Inverter) -> bool {
    |x: Inverter|
        x.datalog matches Some(d) && (!last.contains_key(d@) || now >= last[d@] + opt_or(
            x.register_read_interval,
            global,
        ))
}

} // verus!
