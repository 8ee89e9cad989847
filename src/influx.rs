use vstd::prelude::*;

use crate::config::ConfigWrapper;
use crate::inputs::{page_view, ReadInputAll};
use crate::text::{decimal, push_decimal, push_str};

verus! {

/// Measurement under which every decoded register is written.
pub const MEASUREMENT: &'static str = "eg4_inverter";

/// Attempts made to deliver one batch of points.
pub const SEND_ATTEMPTS: u32 = 3;

/// Seconds between two attempts.
pub const RETRY_DELAY_S: u64 = 10;

/// The name of the field that holds register `n`.
pub open spec fn field_name(n: nat) -> Seq<char> {
    "register_"@ + decimal(n)
}

/// One field per register of page `page` (counted from 0), named by register address.
pub open spec fn page_fields(page: nat, regs: Seq<u16>) -> Seq<(Seq<char>, u16)> {
    Seq::new(regs.len(), |i: int| (field_name(page * 40 + i as nat), regs[i]))
}

pub open spec fn opt_page_fields(page: nat, regs: Option<Seq<u16>>) -> Seq<(Seq<char>, u16)> {
    match regs {
        Some(r) => page_fields(page, r),
        None => Seq::empty(),
    }
}

/// The fields written for a snapshot: every register of every page it holds, in order.
pub open spec fn snapshot_fields(pages: Seq<Option<Seq<u16>>>) -> Seq<(Seq<char>, u16)> {
    opt_page_fields(0, pages[0]) + opt_page_fields(1, pages[1]) + opt_page_fields(2, pages[2])
        + opt_page_fields(3, pages[3]) + opt_page_fields(4, pages[4]) + opt_page_fields(
        5,
        pages[5],
    )
}

pub open spec fn fields_view(v: Seq<(String, u16)>) -> Seq<(Seq<char>, u16)> {
    v.map_values(|f: (String, u16)| (f.0@, f.1))
}

fn push_page_fields(out: &mut Vec<(String, u16)>, page: usize, regs: &Option<Vec<u16>>)
    requires
        page < 6,
    ensures
        fields_view(final(out)@) == fields_view(old(out)@) + opt_page_fields(
            page as nat,
            page_view(*regs),
        ),
{
    let regs = match regs {
        Some(r) => r,
        None => {
            assert(fields_view(out@) =~= fields_view(old(out)@) + Seq::<(Seq<char>, u16)>::empty());
            return;
        },
    };
    let mut i: usize = 0;
    while i < regs.len()
        invariant
            page < 6,
            i <= regs@.len(),
            fields_view(out@) == fields_view(old(out)@) + page_fields(
                page as nat,
                regs@.subrange(0, i as int),
            ),
        decreases regs@.len() - i,
    {
        let mut name = String::new();
        push_str(&mut name, "register_");
        push_decimal(&mut name, 40 * (page as u128) + i as u128);
        let ghost prev = out@;
        let f = (name, regs[i]);
        let ghost fv = (f.0@, f.1);
        out.push(f);
        assert(fields_view(out@) =~= fields_view(prev).push(fv));
        assert(page_fields(page as nat, regs@.subrange(0, i + 1)) =~= page_fields(
            page as nat,
            regs@.subrange(0, i as int),
        ).push(fv));
        i = i + 1;
    }
    assert(regs@.subrange(0, regs@.len() as int) =~= regs@);
}

/// The fields to write for a snapshot, one per register.
pub fn snapshot_points(all: &ReadInputAll) -> (r: Vec<(String, u16)>)
    ensures
        fields_view(r@) == snapshot_fields(all@),
{
    let mut r: Vec<(String, u16)> = Vec::new();
    let p1 = Some(all.read_input_1.clone());
    let p2 = Some(all.read_input_2.clone());
    let p3 = Some(all.read_input_3.clone());
    assert(page_view(p1) == Some(all.read_input_1@)) by {
        assert(p1->Some_0@ =~= all.read_input_1@);
    }
    assert(page_view(p2) == Some(all.read_input_2@)) by {
        assert(p2->Some_0@ =~= all.read_input_2@);
    }
    assert(page_view(p3) == Some(all.read_input_3@)) by {
        assert(p3->Some_0@ =~= all.read_input_3@);
    }
    assert(fields_view(r@) =~= Seq::<(Seq<char>, u16)>::empty());
    push_page_fields(&mut r, 0, &p1);
    push_page_fields(&mut r, 1, &p2);
    push_page_fields(&mut r, 2, &p3);
    push_page_fields(&mut r, 3, &all.read_input_4);
    push_page_fields(&mut r, 4, &all.read_input_5);
    push_page_fields(&mut r, 5, &all.read_input_6);
    assert(fields_view(r@) =~= snapshot_fields(all@));
    r
}

/// The InfluxDB sink's settings.
pub struct Influx {
    pub config: ConfigWrapper,
}

impl Influx {
    pub fn new(config: ConfigWrapper) -> (r: Influx)
        ensures
            r.config == config,
    {
        Influx { config }
    }

    pub fn enabled(&self) -> (r: bool)
        ensures
            r == self.config.config.influx.enabled,
    {
        self.config.config.influx.enabled
    }

    /// The database points are written to.
    pub fn database(&self) -> (r: String)
        ensures
            r@ == self.config.config.influx.database@,
    {
        self.config.config.influx.database.clone()
    }
}

} // verus!
