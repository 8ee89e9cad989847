use vstd::prelude::*;

use crate::commands::INPUT_PAGE_SIZE;
use crate::serial::Serial;
use crate::serial_map::SerialMap;

verus! {

pub open spec fn page_view(o: Option<Vec<u16>>) -> Option<Seq<u16>> {
    match o {
        Some(v) => Some(v@),
        None => None,
    }
}

fn copy_page(o: &Option<Vec<u16>>) -> (r: Option<Vec<u16>>)
    ensures
        page_view(r) == page_view(*o),
{
    match o {
        Some(v) => {
            let c = v.clone();
            assert(c@ =~= v@);
            Some(c)
        },
        None => None,
    }
}

/// The input pages received so far from one datalog; page `n` holds registers
/// `40 * (n - 1)` onward.
#[derive(Clone, Debug, PartialEq, Eq)]
pub struct ReadInputs {
    pub read_input_1: Option<Vec<u16>>,
    pub read_input_2: Option<Vec<u16>>,
    pub read_input_3: Option<Vec<u16>>,
    pub read_input_4: Option<Vec<u16>>,
    pub read_input_5: Option<Vec<u16>>,
    pub read_input_6: Option<Vec<u16>>,
}

/// A snapshot of all input pages: the first three always, the rest when they arrived.
#[derive(Clone, Debug, PartialEq, Eq)]
pub struct ReadInputAll {
    pub read_input_1: Vec<u16>,
    pub read_input_2: Vec<u16>,
    pub read_input_3: Vec<u16>,
    pub read_input_4: Option<Vec<u16>>,
    pub read_input_5: Option<Vec<u16>>,
    pub read_input_6: Option<Vec<u16>>,
}

/// Six empty pages.
pub open spec fn no_pages() -> Seq<Option<Seq<u16>>> {
    seq![None, None, None, None, None, None]
}

/// Pages 1, 2 and 3 are all present.
pub open spec fn complete(pages: Seq<Option<Seq<u16>>>) -> bool {
    pages[0] is Some && pages[1] is Some && pages[2] is Some
}

impl View for ReadInputs {
    type V = Seq<Option<Seq<u16>>>;

    open spec fn view(&self) -> Seq<Option<Seq<u16>>> {
        seq![
            page_view(self.read_input_1),
            page_view(self.read_input_2),
            page_view(self.read_input_3),
            page_view(self.read_input_4),
            page_view(self.read_input_5),
            page_view(self.read_input_6),
        ]
    }
}

impl View for ReadInputAll {
    type V = Seq<Option<Seq<u16>>>;

    open spec fn view(&self) -> Seq<Option<Seq<u16>>> {
        seq![
            Some(self.read_input_1@),
            Some(self.read_input_2@),
            Some(self.read_input_3@),
            page_view(self.read_input_4),
            page_view(self.read_input_5),
            page_view(self.read_input_6),
        ]
    }
}

impl Default for ReadInputs {
    fn default() -> (r: ReadInputs)
        ensures
            r@ == no_pages(),
    {
        ReadInputs {
            read_input_1: None,
            read_input_2: None,
            read_input_3: None,
            read_input_4: None,
            read_input_5: None,
            read_input_6: None,
        }
    }
}

impl ReadInputs {
    /// Stores page `n` (1 to 6), replacing what it held.
    pub fn set_page(&mut self, n: u16, registers: Vec<u16>)
        requires
            1 <= n <= 6,
        ensures
            final(self)@ == old(self)@.update(n - 1, Some(registers@)),
    {
        if n == 1 {
            self.read_input_1 = Some(registers);
        } else if n == 2 {
            self.read_input_2 = Some(registers);
        } else if n == 3 {
            self.read_input_3 = Some(registers);
        } else if n == 4 {
            self.read_input_4 = Some(registers);
        } else if n == 5 {
            self.read_input_5 = Some(registers);
        } else {
            self.read_input_6 = Some(registers);
        }
        assert(self@ =~= old(self)@.update(n - 1, Some(registers@)));
    }

    pub fn set_read_input_1(&mut self, registers: Vec<u16>)
        ensures
            final(self)@ == old(self)@.update(0, Some(registers@)),
    {
        self.set_page(1, registers)
    }

    pub fn set_read_input_2(&mut self, registers: Vec<u16>)
        ensures
            final(self)@ == old(self)@.update(1, Some(registers@)),
    {
        self.set_page(2, registers)
    }

    pub fn set_read_input_3(&mut self, registers: Vec<u16>)
        ensures
            final(self)@ == old(self)@.update(2, Some(registers@)),
    {
        self.set_page(3, registers)
    }

    pub fn set_read_input_4(&mut self, registers: Vec<u16>)
        ensures
            final(self)@ == old(self)@.update(3, Some(registers@)),
    {
        self.set_page(4, registers)
    }

    pub fn set_read_input_5(&mut self, registers: Vec<u16>)
        ensures
            final(self)@ == old(self)@.update(4, Some(registers@)),
    {
        self.set_page(5, registers)
    }

    pub fn set_read_input_6(&mut self, registers: Vec<u16>)
        ensures
            final(self)@ == old(self)@.update(5, Some(registers@)),
    {
        self.set_page(6, registers)
    }

    /// The snapshot, once pages 1, 2 and 3 have all arrived.
    pub fn to_input_all(&self) -> (r: Option<ReadInputAll>)
        ensures
            r is Some <==> complete(self@),
            r matches Some(all) ==> all@ == self@,
    {
        match (&self.read_input_1, &self.read_input_2, &self.read_input_3) {
            (Some(a), Some(b), Some(c)) => {
                let a2 = a.clone();
                let b2 = b.clone();
                let c2 = c.clone();
                assert(a2@ =~= a@);
                assert(b2@ =~= b@);
                assert(c2@ =~= c@);
                let all = ReadInputAll {
                    read_input_1: a2,
                    read_input_2: b2,
                    read_input_3: c2,
                    read_input_4: copy_page(&self.read_input_4),
                    read_input_5: copy_page(&self.read_input_5),
                    read_input_6: copy_page(&self.read_input_6),
                };
                assert(all@ =~= self@);
                Some(all)
            },
            _ => None,
        }
    }
}

/// The input page that a ReadInput reply starting at `register` fills, if any.
pub open spec fn page_of_register(register: u16) -> Option<u16> {
    if register % 40 == 0 && register <= 200 {
        Some((register / 40 + 1) as u16)
    } else {
        None
    }
}

pub fn page_for_register(register: u16) -> (r: Option<u16>)
    ensures
        r == page_of_register(register),
{
    if register % INPUT_PAGE_SIZE == 0 && register <= 5 * INPUT_PAGE_SIZE {
        Some(register / INPUT_PAGE_SIZE + 1)
    } else {
        None
    }
}

/// Pages received per datalog, waiting for a complete snapshot.
pub struct InputsStore {
    pub map: SerialMap<ReadInputs>,
}

/// The pages held for `d`, or none at all.
pub open spec fn pages_for(m: Map<Seq<u8>, ReadInputs>, d: Seq<u8>) -> Seq<Option<Seq<u16>>> {
    if m.contains_key(d) {
        m[d]@
    } else {
        no_pages()
    }
}

impl InputsStore {
    pub open spec fn wf(&self) -> bool {
        self.map.wf()
    }

    pub fn new() -> (r: InputsStore)
        ensures
            r.wf(),
            r.map.view() == Map::<Seq<u8>, ReadInputs>::empty(),
    {
        InputsStore { map: SerialMap::new() }
    }

    /// Records page `page` of `datalog`. When pages 1, 2 and 3 are then all present the
    /// snapshot is handed back and the datalog starts over with no pages; otherwise
    /// nothing is handed back.
    pub fn ingest(&mut self, datalog: Serial, page: u16, registers: Vec<u16>) -> (r: Option<
        ReadInputAll,
    >)
        requires
            old(self).wf(),
            1 <= page <= 6,
        ensures
            final(self).wf(),
            final(self).map.view().dom() == old(self).map.view().dom().insert(datalog@),
            forall|d: Seq<u8>|
                d != datalog@ && old(self).map.view().contains_key(d) ==> final(self).map.view()[d]
                    == old(self).map.view()[d],
            ({
                let after = pages_for(old(self).map.view(), datalog@).update(
                    page - 1,
                    Some(registers@),
                );
                &&& r is Some <==> complete(after)
                &&& r matches Some(all) ==> all@ == after
                &&& final(self).map.view()[datalog@]@ == if complete(after) {
                    no_pages()
                } else {
                    after
                }
            }),
    {
        let mut pages = match self.map.get(&datalog) {
            Some(p) => ReadInputs {
                read_input_1: copy_page(&p.read_input_1),
                read_input_2: copy_page(&p.read_input_2),
                read_input_3: copy_page(&p.read_input_3),
                read_input_4: copy_page(&p.read_input_4),
                read_input_5: copy_page(&p.read_input_5),
                read_input_6: copy_page(&p.read_input_6),
            },
            None => ReadInputs::default(),
        };
        assert(pages@ =~= pages_for(old(self).map.view(), datalog@));
        pages.set_page(page, registers);
        let snapshot = pages.to_input_all();
        if snapshot.is_some() {
            self.map.insert(datalog, ReadInputs::default());
        } else {
            self.map.insert(datalog, pages);
        }
        assert(self.map.view().dom() =~= old(self).map.view().dom().insert(datalog@));
        snapshot
    }
}

} // verus!
