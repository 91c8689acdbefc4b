//! A cartridge image and the traversal that disassembles its program ROM.
//!
//! The traversal starts from the hardware entry vectors, decodes straight-line
//! runs of instructions, and schedules every branch, jump and subroutine
//! destination it discovers. Each address is decoded at most once, which is
//! what makes the walk end on any ROM, cyclic control flow included.

use std::collections::HashMap;
use vstd::prelude::*;
use vstd::slice::{slice_subrange, slice_to_vec};
use crate::instruction::{
    disassemble_instruction, instruction_length, instruction_text, label_request, line_text,
    order_after,
};
use crate::labeller::{
    label_in, lemma_label_stable, lemma_with_address_contains, with_address, Labeller, Role,
};
use crate::text::{hex4, push_hex4};
use crate::traversal::{
    decodable, is_closed, lemma_closed_holds_reachable, lemma_pop_contains, lemma_prefix_trans,
    lemma_push_contains, lemma_push_origin, lemma_reachable_start, lemma_reachable_step,
    lemma_settled_widen, lemma_successors_widen, reachable, settled, successors_settled,
};

verus! {

broadcast use vstd::std_specs::hash::group_hash_axioms;

/// Bytes of the container header that precedes the ROM banks.
pub const NES_HEADER_BYTES: usize = 16;

/// Bytes in one program-ROM bank.
pub const PRG_ROM_BANK_BYTES: usize = 16384;

/// Bytes in one character-ROM bank.
pub const CHR_ROM_BANK_BYTES: usize = 8192;

/// The mapped address of the first program-ROM byte.
pub const MAPPING_BASE: usize = 0x8000;

/// One decoded instruction of the listing: its rendered line and how many
/// bytes it occupies.
pub struct TextLine {
    pub contents: String,
    pub bytes: usize,
}

/// The mapper number held in the upper nibbles of header bytes 6 and 7.
pub open spec fn mapper_number(flags6: u8, flags7: u8) -> u8 {
    ((flags7 as nat / 16) * 16 + flags6 as nat / 16) as u8
}

/// Whether `data` holds a whole image: the header and every ROM bank it
/// announces.
pub open spec fn complete_image(data: Seq<u8>) -> bool {
    data.len() >= NES_HEADER_BYTES && data.len() >= image_len(data[4], data[5])
}

/// The size of a complete image with the given bank counts.
pub open spec fn image_len(prg_banks: u8, chr_banks: u8) -> nat {
    NES_HEADER_BYTES as nat + prg_banks as nat * PRG_ROM_BANK_BYTES as nat + chr_banks as nat
        * CHR_ROM_BANK_BYTES as nat
}

/// Whether `line` is the decoding of the ROM at mapped `address`, rendered
/// with the labels of `labels`, which hold the label it names, if any.
pub open spec fn entry_matches(
    rom: Seq<u8>,
    address: usize,
    line: TextLine,
    labels: Labeller,
) -> bool {
    let off = address - MAPPING_BASE;
    &&& decodable(rom, address as int)
    &&& line.bytes == instruction_length(rom[off])
    &&& line.contents@ == line_text(
        instruction_text(rom, off, address as nat, labels),
        address as nat,
        rom.subrange(off, off + line.bytes),
    )
    &&& label_request(rom, off, address as nat) matches Some((role, target)) ==> labels.order(
        role,
    ).contains(target)
}

/// The allocation order of `role` after decoding, in turn, the instructions
/// at the mapped addresses `decoded`.
pub open spec fn order_after_decoding(
    order: Seq<usize>,
    role: Role,
    rom: Seq<u8>,
    decoded: Seq<usize>,
) -> Seq<usize>
    decreases decoded.len(),
{
    if decoded.len() == 0 {
        order
    } else {
        let a = decoded.last();
        order_after(
            order_after_decoding(order, role, rom, decoded.drop_last()),
            role,
            label_request(rom, a - MAPPING_BASE, a as nat),
        )
    }
}

/// Whether `decoded` lists, once each and in decoding order, the addresses
/// that are in `listed2` but not in `listed`, and the labels of `after` are
/// those of `before` with exactly the requests of those decodings added.
pub open spec fn allocated_by_decoding(
    rom: Seq<u8>,
    listed: Set<usize>,
    listed2: Set<usize>,
    before: Labeller,
    after: Labeller,
    decoded: Seq<usize>,
) -> bool {
    &&& decoded.no_duplicates()
    &&& forall|a: usize| #[trigger]
        decoded.contains(a) <==> listed2.contains(a) && !listed.contains(a)
    &&& forall|role: Role| #[trigger]
        after.order(role) == order_after_decoding(before.order(role), role, rom, decoded)
}

/// Whether every listing entry is the decoding of the ROM at its address.
pub open spec fn listing_faithful(
    rom: Seq<u8>,
    listing: Map<usize, TextLine>,
    labels: Labeller,
) -> bool {
    forall|a: usize| #[trigger]
        listing.contains_key(a) ==> entry_matches(rom, a, listing[a], labels)
}

/// The `k`-th little-endian address of the six vector bytes that end the ROM.
pub open spec fn vector_at(rom: Seq<u8>, k: int) -> nat {
    let base = rom.len() - 6 + 2 * k;
    rom[base + 1] as nat * 256 + rom[base] as nat
}

/// Whether control flow leads to `a` from one of the three vectors.
pub open spec fn reachable_from_vectors(rom: Seq<u8>, a: int) -> bool {
    reachable(rom, vector_at(rom, 1) as int, a) || reachable(rom, vector_at(rom, 0) as int, a)
        || reachable(rom, vector_at(rom, 2) as int, a)
}

/// Whether the cartridge maps its program ROM at [`MAPPING_BASE`]: mapper 0
/// with one or two banks.
pub open spec fn supported_mapping(mapper_id: u8, prg_rom_bank_count: u8) -> bool {
    mapper_id == 0 && 1 <= prg_rom_bank_count <= 2
}

/// A label declaration line: the name and the address it stands for.
pub open spec fn label_line(name: Seq<char>, address: nat) -> Seq<char> {
    name + ": ["@ + hex4(address) + "]"@
}

/// The declaration line of the label of `address` in `role`, if it has one.
pub open spec fn role_lines(labels: Labeller, role: Role, address: usize) -> Seq<Seq<char>> {
    if labels.order(role).contains(address) {
        seq![label_line(label_in(role, labels.order(role), address), address as nat)]
    } else {
        Seq::empty()
    }
}

/// Appends the declaration line of label `name` for `address`.
fn push_label_line(lines: &mut Vec<String>, name: &String, address: usize)
    requires
        address < 0x10000,
    ensures
        final(lines)@.map_values(|s: String| s@) == old(lines)@.map_values(|s: String| s@).push(
            label_line(name@, address as nat),
        ),
{
    let mut line = name.clone();
    line.append(": [");
    push_hex4(&mut line, address as u16);
    line.append("]");
    lines.push(line);
    assert(lines@.map_values(|s: String| s@) =~= old(lines)@.map_values(|s: String| s@).push(
        label_line(name@, address as nat),
    ));
}

/// A cartridge image: the header fields, the two ROMs, and the state of its
/// disassembly.
pub struct Cartridge {
    mapper_id: u8,
    prg_rom_bank_count: u8,
    chr_rom_bank_count: u8,
    prg_rom_contents: Vec<u8>,
    chr_rom_contents: Vec<u8>,
    global_labels: HashMap<usize, String>,
    labeller: Labeller,
    text_lines: HashMap<usize, TextLine>,
}

impl Cartridge {
    pub closed spec fn spec_mapper_id(&self) -> u8 {
        self.mapper_id
    }

    pub closed spec fn spec_prg_rom_bank_count(&self) -> u8 {
        self.prg_rom_bank_count
    }

    pub closed spec fn spec_chr_rom_bank_count(&self) -> u8 {
        self.chr_rom_bank_count
    }

    /// The mapper number from the header.
    #[verifier::when_used_as_spec(spec_mapper_id)]
    pub fn mapper_id(&self) -> (r: u8)
        ensures
            r == self.spec_mapper_id(),
    {
        self.mapper_id
    }

    /// The number of 16 KiB program-ROM banks.
    #[verifier::when_used_as_spec(spec_prg_rom_bank_count)]
    pub fn prg_rom_bank_count(&self) -> (r: u8)
        ensures
            r == self.spec_prg_rom_bank_count(),
    {
        self.prg_rom_bank_count
    }

    /// The number of 8 KiB character-ROM banks.
    #[verifier::when_used_as_spec(spec_chr_rom_bank_count)]
    pub fn chr_rom_bank_count(&self) -> (r: u8)
        ensures
            r == self.spec_chr_rom_bank_count(),
    {
        self.chr_rom_bank_count
    }

    /// The program ROM, indexed by content offset.
    pub closed spec fn prg_rom(&self) -> Seq<u8> {
        self.prg_rom_contents@
    }

    pub closed spec fn chr_rom(&self) -> Seq<u8> {
        self.chr_rom_contents@
    }

    /// The names given to entry addresses.
    pub closed spec fn entry_labels(&self) -> Map<usize, Seq<char>> {
        self.global_labels@.map_values(|s: String| s@)
    }

    /// The labels allocated so far.
    pub closed spec fn labels(&self) -> Labeller {
        self.labeller
    }

    /// The decoded instructions, keyed by mapped address.
    pub closed spec fn listing(&self) -> Map<usize, TextLine> {
        self.text_lines@
    }

    /// The ROMs have the sizes the header gives, and the listing is faithful
    /// to the program ROM and closed under its control flow.
    pub closed spec fn wf(&self) -> bool {
        &&& self.labeller.wf()
        &&& self.prg_rom_contents@.len() == self.prg_rom_bank_count as nat
            * PRG_ROM_BANK_BYTES as nat
        &&& self.chr_rom_contents@.len() == self.chr_rom_bank_count as nat
            * CHR_ROM_BANK_BYTES as nat
        &&& listing_faithful(self.prg_rom_contents@, self.text_lines@, self.labeller)
        &&& is_closed(self.prg_rom_contents@, self.text_lines@.dom())
    }

    /// Whether `data` is long enough to be read as a cartridge image.
    pub fn is_complete_image(data: &[u8]) -> (r: bool)
        ensures
            r == complete_image(data@),
    {
        let n = data.len();
        if n < NES_HEADER_BYTES {
            return false;
        }
        let prg_len = data[4] as usize * PRG_ROM_BANK_BYTES;
        let chr_len = data[5] as usize * CHR_ROM_BANK_BYTES;
        n - NES_HEADER_BYTES >= prg_len && n - NES_HEADER_BYTES - prg_len >= chr_len
    }

    /// Reads a cartridge image: a 16-byte header, then the program-ROM banks,
    /// then the character-ROM banks. Bytes past those are ignored.
    pub fn from_ines_bytes(data: &[u8]) -> (c: Cartridge)
        requires
            complete_image(data@),
        ensures
            ({
                let prg_end = NES_HEADER_BYTES + data@[4] as int * PRG_ROM_BANK_BYTES;
                let chr_end = prg_end + data@[5] as int * CHR_ROM_BANK_BYTES;
                &&& c.wf()
                &&& c.mapper_id() == mapper_number(data@[6], data@[7])
                &&& c.prg_rom_bank_count() == data@[4]
                &&& c.chr_rom_bank_count() == data@[5]
                &&& c.prg_rom() == data@.subrange(NES_HEADER_BYTES as int, prg_end)
                &&& c.chr_rom() == data@.subrange(prg_end, chr_end)
                &&& c.listing().is_empty()
                &&& c.entry_labels().is_empty()
                &&& forall|role: Role| #[trigger] c.labels().order(role) == Seq::<usize>::empty()
            }),
    {
        let _n = data.len();
        let flags6 = data[6];
        let flags7 = data[7];
        let mapper_id = (flags7 & 0xF0) | (flags6 >> 4);
        assert((flags7 & 0xF0) | (flags6 >> 4) == (flags7 / 16) * 16 + flags6 / 16)
            by (bit_vector);
        let prg_rom_bank_count = data[4];
        let chr_rom_bank_count = data[5];
        let prg_len = prg_rom_bank_count as usize * PRG_ROM_BANK_BYTES;
        let chr_len = chr_rom_bank_count as usize * CHR_ROM_BANK_BYTES;
        let prg_end = NES_HEADER_BYTES + prg_len;
        let prg_rom_contents = slice_to_vec(slice_subrange(data, NES_HEADER_BYTES, prg_end));
        let chr_rom_contents = slice_to_vec(slice_subrange(data, prg_end, prg_end + chr_len));
        let c = Cartridge {
            mapper_id,
            prg_rom_bank_count,
            chr_rom_bank_count,
            prg_rom_contents,
            chr_rom_contents,
            global_labels: HashMap::new(),
            labeller: Labeller::new(),
            text_lines: HashMap::new(),
        };
        assert(c.text_lines@.dom() =~= Set::<usize>::empty());
        assert(c.entry_labels() =~= Map::<usize, Seq<char>>::empty());
        c
    }

    /// What holds between the steps of a traversal that began in state
    /// `start`: the ROMs, header and entry names are untouched, the listing is
    /// faithful, only grows, and every address it leads to, the entry among
    /// them, is settled against `worklist` and the run's `cursor`; what it
    /// gained, what waits and the cursor are reachable from `entry`; it gained
    /// the addresses of `decoded`, whose label requests are the labels added.
    spec fn exploring(
        &self,
        start: Cartridge,
        worklist: Seq<usize>,
        cursor: Option<int>,
        entry: int,
        decoded: Seq<usize>,
    ) -> bool {
        let rom = self.prg_rom_contents@;
        let listed = self.text_lines@.dom();
        &&& self.labeller.wf()
        &&& self.mapper_id == start.mapper_id
        &&& self.prg_rom_bank_count == start.prg_rom_bank_count
        &&& self.chr_rom_bank_count == start.chr_rom_bank_count
        &&& rom == start.prg_rom_contents@
        &&& self.chr_rom_contents@ == start.chr_rom_contents@
        &&& rom.len() == self.prg_rom_bank_count as nat * PRG_ROM_BANK_BYTES as nat
        &&& self.chr_rom_contents@.len() == self.chr_rom_bank_count as nat
            * CHR_ROM_BANK_BYTES as nat
        &&& self.global_labels@ == start.global_labels@
        &&& listing_faithful(rom, self.text_lines@, self.labeller)
        &&& forall|a: usize| #[trigger]
            self.text_lines@.contains_key(a) ==> successors_settled(
                rom,
                listed,
                a,
                worklist,
                cursor,
            )
        &&& forall|a: usize| #[trigger]
            start.text_lines@.contains_key(a) ==> self.text_lines@.contains_key(a)
                && self.text_lines@[a] == start.text_lines@[a]
        &&& settled(rom, listed, entry, worklist, cursor)
        &&& forall|role: Role| #[trigger]
            start.labeller.order(role).is_prefix_of(self.labeller.order(role))
        &&& forall|a: usize| #[trigger]
            self.text_lines@.contains_key(a) ==> start.text_lines@.contains_key(a) || reachable(
                rom,
                entry,
                a as int,
            )
        &&& forall|y: usize| #[trigger] worklist.contains(y) ==> reachable(rom, entry, y as int)
        &&& cursor matches Some(c) ==> reachable(rom, entry, c)
        &&& allocated_by_decoding(
            rom,
            start.text_lines@.dom(),
            listed,
            start.labeller,
            self.labeller,
            decoded,
        )
    }

    /// One run of the traversal: decodes from `address` on until an
    /// instruction ends the run, the cursor reaches an address already listed,
    /// or no complete instruction fits; pushes every discovered destination.
    fn explore_run(
        &mut self,
        address: usize,
        worklist: &mut Vec<usize>,
        Ghost(start): Ghost<Cartridge>,
        Ghost(entry): Ghost<int>,
        Ghost(decoded): Ghost<Seq<usize>>,
    ) -> (r: Ghost<Seq<usize>>)
        requires
            old(self).exploring(start, old(worklist)@, Some(address as int), entry, decoded),
        ensures
            final(self).exploring(start, final(worklist)@, None, entry, r@),
            final(self).text_lines@.len() >= old(self).text_lines@.len(),
            final(self).text_lines@.len() > old(self).text_lines@.len() || final(worklist)@ == old(
                worklist,
            )@,
    {
        let ghost rom = self.prg_rom_contents@;
        let ghost listing0 = self.text_lines@;
        let ghost pending0 = worklist@;
        let rom_len = self.prg_rom_contents.len();
        let mut current_address = address;
        let ghost mut d = decoded;
        loop
            invariant
                self.exploring(start, worklist@, Some(current_address as int), entry, d),
                rom == self.prg_rom_contents@,
                rom_len == rom.len(),
                self.text_lines@.len() >= listing0.len(),
                self.text_lines@.len() == listing0.len() ==> worklist@ == pending0,
            ensures
                self.exploring(start, worklist@, None, entry, d),
                self.text_lines@.len() >= listing0.len(),
                self.text_lines@.len() > listing0.len() || worklist@ == pending0,
            decreases 0x10000 - self.text_lines@.len(),
        {
            let ghost listing1 = self.text_lines@;
            let ghost pending1 = worklist@;
            if current_address < MAPPING_BASE || current_address > 0xFFFF || current_address
                - MAPPING_BASE + 3 > rom_len || self.text_lines.contains_key(&current_address) {
                proof {
                    assert forall|a: usize| #[trigger]
                        self.text_lines@.contains_key(a) implies successors_settled(
                        rom,
                        self.text_lines@.dom(),
                        a,
                        worklist@,
                        None,
                    ) by {
                        lemma_successors_widen(
                            rom,
                            listing1.dom(),
                            self.text_lines@.dom(),
                            a,
                            pending1,
                            worklist@,
                            Some(current_address as int),
                            None,
                        );
                    }
                    lemma_settled_widen(
                        rom,
                        listing1.dom(),
                        self.text_lines@.dom(),
                        entry,
                        pending1,
                        worklist@,
                        Some(current_address as int),
                        None,
                    );
                }
                break;
            }
            let ghost labels1 = self.labeller;
            let ghost off = current_address - MAPPING_BASE;
            let ghost d1 = d;
            let (is_section_complete, bytes, contents, target) = disassemble_instruction(
                self.prg_rom_contents.as_slice(),
                current_address - MAPPING_BASE,
                current_address,
                &mut self.labeller,
            );
            proof {
                assert forall|role: Role| #[trigger]
                    labels1.order(role).is_prefix_of(self.labeller.order(role)) by {
                    lemma_order_grows(
                        labels1.order(role),
                        role,
                        label_request(rom, off, current_address as nat),
                    );
                }
                self.labeller.lemma_orders_unique();
                assert forall|a: usize| #[trigger]
                    self.text_lines@.contains_key(a) implies entry_matches(
                    rom,
                    a,
                    self.text_lines@[a],
                    self.labeller,
                ) by {
                    lemma_entry_stable(rom, a, self.text_lines@[a], labels1, self.labeller);
                }
                if let Some((role, t)) = label_request(rom, off, current_address as nat) {
                    lemma_with_address_contains(labels1.order(role), t);
                    assert(self.labeller.order(role) == with_address(labels1.order(role), t));
                }
                assert forall|role: Role| #[trigger]
                    start.labeller.order(role).is_prefix_of(self.labeller.order(role)) by {
                    lemma_prefix_trans(
                        start.labeller.order(role),
                        labels1.order(role),
                        self.labeller.order(role),
                    );
                }
            }
            self.text_lines.insert(current_address, TextLine { contents, bytes });
            match target {
                Some(t) => worklist.push(t),
                None => {},
            }
            proof {
                d = d1.push(current_address);
                assert(start.text_lines@.dom().subset_of(listing1.dom()));
                lemma_allocated_step(
                    rom,
                    start.text_lines@.dom(),
                    listing1.dom(),
                    self.text_lines@.dom(),
                    start.labeller,
                    labels1,
                    self.labeller,
                    d1,
                    current_address,
                );
            }
            let ghost next: Option<int> = if is_section_complete {
                None
            } else {
                Some(current_address + bytes)
            };
            proof {
                assert(self.text_lines@.dom() == listing1.dom().insert(current_address));
                lemma_push_contains(pending1, target);
                if let Some(t) = target {
                    lemma_push_origin(pending1, t);
                    lemma_reachable_step(rom, entry, current_address as int, t as int);
                }
                if !is_section_complete {
                    lemma_reachable_step(
                        rom,
                        entry,
                        current_address as int,
                        current_address + bytes,
                    );
                }
                assert forall|a: usize| #[trigger]
                    self.text_lines@.contains_key(a) implies successors_settled(
                    rom,
                    self.text_lines@.dom(),
                    a,
                    worklist@,
                    next,
                ) by {
                    if a != current_address {
                        lemma_successors_widen(
                            rom,
                            listing1.dom(),
                            self.text_lines@.dom(),
                            a,
                            pending1,
                            worklist@,
                            Some(current_address as int),
                            next,
                        );
                    }
                }
                lemma_settled_widen(
                    rom,
                    listing1.dom(),
                    self.text_lines@.dom(),
                    entry,
                    pending1,
                    worklist@,
                    Some(current_address as int),
                    next,
                );
                lemma_listing_bounded(rom, self.text_lines@, self.labeller);
            }
            if is_section_complete {
                break;
            }
            current_address = current_address + bytes;
        }
        Ghost(d)
    }

    /// Explores the code reachable from `entry_point` and names that address
    /// `entry_point_label`, replacing any entry name it had.
    ///
    /// Runs of instructions are decoded from each address taken off the
    /// worklist until one ends its run; every discovered destination joins the
    /// worklist. An address already in the listing, or one where no complete
    /// instruction fits in the ROM, ends the run without being decoded. Each
    /// run lists a new address or shrinks the worklist, and there are finitely
    /// many addresses, so the traversal always ends.
    pub fn disassemble_from_entry_point(&mut self, entry_point: usize, entry_point_label: &str)
        requires
            old(self).wf(),
        ensures
            final(self).wf(),
            final(self).mapper_id() == old(self).mapper_id(),
            final(self).prg_rom_bank_count() == old(self).prg_rom_bank_count(),
            final(self).chr_rom_bank_count() == old(self).chr_rom_bank_count(),
            final(self).prg_rom() == old(self).prg_rom(),
            final(self).chr_rom() == old(self).chr_rom(),
            final(self).entry_labels() == old(self).entry_labels().insert(
                entry_point,
                entry_point_label@,
            ),
            forall|a: usize| #[trigger]
                old(self).listing().contains_key(a) ==> final(self).listing().contains_key(a)
                    && final(self).listing()[a] == old(self).listing()[a],
            decodable(old(self).prg_rom(), entry_point as int) ==> final(self).listing().contains_key(
                entry_point,
            ),
            forall|role: Role| #[trigger]
                old(self).labels().order(role).is_prefix_of(final(self).labels().order(role)),
            forall|role: Role| #[trigger] final(self).labels().order(role).no_duplicates(),
            exists|decoded: Seq<usize>| #[trigger]
                allocated_by_decoding(
                    old(self).prg_rom(),
                    old(self).listing().dom(),
                    final(self).listing().dom(),
                    old(self).labels(),
                    final(self).labels(),
                    decoded,
                ),
            listing_faithful(final(self).prg_rom(), final(self).listing(), final(self).labels()),
            is_closed(final(self).prg_rom(), final(self).listing().dom()),
            forall|a: usize| #[trigger]
                final(self).listing().contains_key(a) ==> old(self).listing().contains_key(a)
                    || reachable(old(self).prg_rom(), entry_point as int, a as int),
            forall|a: int| #[trigger]
                reachable(old(self).prg_rom(), entry_point as int, a) && decodable(
                    old(self).prg_rom(),
                    a,
                ) ==> final(self).listing().contains_key(a as usize),
    {
        self.global_labels.insert(entry_point, String::from_str(entry_point_label));
        assert(self.entry_labels() =~= old(self).entry_labels().insert(
            entry_point,
            entry_point_label@,
        ));
        let ghost start = *self;
        let ghost rom = self.prg_rom_contents@;
        let mut entry_points: Vec<usize> = Vec::new();
        entry_points.push(entry_point);
        proof {
            assert(entry_points@[0] == entry_point);
            lemma_reachable_start(rom, entry_point as int);
            lemma_push_origin(Seq::empty(), entry_point);
            assert(entry_points@ == Seq::<usize>::empty().push(entry_point));
            assert forall|a: usize| #[trigger]
                self.text_lines@.contains_key(a) implies successors_settled(
                rom,
                self.text_lines@.dom(),
                a,
                entry_points@,
                None,
            ) by {
                lemma_successors_widen(
                    rom,
                    self.text_lines@.dom(),
                    self.text_lines@.dom(),
                    a,
                    Seq::empty(),
                    entry_points@,
                    None,
                    None,
                );
            }
            assert forall|role: Role| #[trigger]
                start.labeller.order(role).is_prefix_of(self.labeller.order(role)) by {
                assert(self.labeller.order(role) =~= self.labeller.order(role).subrange(
                    0,
                    self.labeller.order(role).len() as int,
                ));
            }
        }
        let ghost mut decoded = Seq::<usize>::empty();
        proof {
            assert forall|role: Role| #[trigger]
                self.labeller.order(role) == order_after_decoding(
                    start.labeller.order(role),
                    role,
                    rom,
                    decoded,
                ) by {}
        }
        loop
            invariant
                self.exploring(start, entry_points@, None, entry_point as int, decoded),
                rom == start.prg_rom_contents@,
                start.text_lines@ == old(self).text_lines@,
                start.labeller == old(self).labeller,
            ensures
                entry_points@ == Seq::<usize>::empty(),
            decreases 0x10000 - self.text_lines@.len(), entry_points@.len(),
        {
            let ghost listing0 = self.text_lines@;
            let ghost pending0 = entry_points@;
            let address = match entry_points.pop() {
                Some(address) => address,
                None => {
                    assert(entry_points@ =~= Seq::<usize>::empty());
                    break;
                },
            };
            proof {
                lemma_pop_contains(pending0);
                assert(pending0.contains(address));
                assert forall|y: usize| #[trigger]
                    entry_points@.contains(y) implies reachable(rom, entry_point as int, y as int) by {
                    assert(pending0.contains(y));
                }
                assert forall|a: usize| #[trigger]
                    self.text_lines@.contains_key(a) implies successors_settled(
                    rom,
                    self.text_lines@.dom(),
                    a,
                    entry_points@,
                    Some(address as int),
                ) by {
                    lemma_successors_widen(
                        rom,
                        listing0.dom(),
                        self.text_lines@.dom(),
                        a,
                        pending0,
                        entry_points@,
                        None,
                        Some(address as int),
                    );
                }
                lemma_settled_widen(
                    rom,
                    listing0.dom(),
                    self.text_lines@.dom(),
                    entry_point as int,
                    pending0,
                    entry_points@,
                    None,
                    Some(address as int),
                );
            }
            let ran = self.explore_run(
                address,
                &mut entry_points,
                Ghost(start),
                Ghost(entry_point as int),
                Ghost(decoded),
            );
            proof {
                decoded = ran@;
            }
            proof {
                lemma_listing_bounded(rom, self.text_lines@, self.labeller);
            }
        }
        proof {
            assert(allocated_by_decoding(
                old(self).prg_rom(),
                old(self).listing().dom(),
                self.listing().dom(),
                old(self).labels(),
                self.labels(),
                decoded,
            ));
            self.labeller.lemma_orders_unique();
            assert forall|a: int| #[trigger]
                reachable(rom, entry_point as int, a) && decodable(rom, a) implies self.listing().contains_key(
                a as usize,
            ) by {
                lemma_closed_holds_reachable(rom, self.text_lines@.dom(), entry_point as int, a);
            }
        }
    }

    /// The interrupt vectors held in the last six bytes of the program ROM,
    /// each a little-endian address: NMI, reset and IRQ, in that order.
    pub fn vectors(&self) -> (r: Option<(usize, usize, usize)>)
        ensures
            r == (if self.prg_rom().len() >= 6 {
                Some(
                    (
                        vector_at(self.prg_rom(), 0) as usize,
                        vector_at(self.prg_rom(), 1) as usize,
                        vector_at(self.prg_rom(), 2) as usize,
                    ),
                )
            } else {
                None
            }),
    {
        let n = self.prg_rom_contents.len();
        if n < 6 {
            return None;
        }
        let base = n - 6;
        let rom = &self.prg_rom_contents;
        let nmi = rom[base + 1] as usize * 256 + rom[base] as usize;
        let reset = rom[base + 3] as usize * 256 + rom[base + 2] as usize;
        let irq = rom[base + 5] as usize * 256 + rom[base + 4] as usize;
        Some((nmi, reset, irq))
    }

    /// Whether the cartridge uses the one mapping this disassembler supports.
    pub fn has_supported_mapping(&self) -> (r: bool)
        ensures
            r == supported_mapping(self.mapper_id(), self.prg_rom_bank_count()),
    {
        self.mapper_id == 0 && 1 <= self.prg_rom_bank_count && self.prg_rom_bank_count <= 2
    }

    /// Disassembles the program ROM from its NMI, IRQ and reset vectors, in
    /// that order, naming those entry points `NMI`, `IRQ` and `RESET`; where
    /// two vectors coincide the later name replaces the earlier, so the reset
    /// entry is always called `RESET`.
    ///
    /// Only mapper 0 with one or two program-ROM banks places the ROM at
    /// [`MAPPING_BASE`]; no other mapping may be disassembled.
    pub fn disassemble(&mut self)
        requires
            old(self).wf(),
            supported_mapping(old(self).mapper_id(), old(self).prg_rom_bank_count()),
        ensures
            final(self).wf(),
            ({
                let rom = old(self).prg_rom();
                let (nmi, reset, irq) = (vector_at(rom, 0), vector_at(rom, 1), vector_at(rom, 2));
                &&& final(self).prg_rom() == rom
                &&& final(self).mapper_id() == old(self).mapper_id()
                &&& final(self).prg_rom_bank_count() == old(self).prg_rom_bank_count()
                &&& final(self).chr_rom() == old(self).chr_rom()
                &&& final(self).entry_labels() == old(self).entry_labels().insert(
                    nmi as usize,
                    "NMI"@,
                ).insert(irq as usize, "IRQ"@).insert(reset as usize, "RESET"@)
                &&& final(self).entry_labels()[reset as usize] == "RESET"@
                &&& forall|a: usize| #[trigger]
                    old(self).listing().contains_key(a) ==> final(self).listing().contains_key(a)
                        && final(self).listing()[a] == old(self).listing()[a]
                &&& forall|a: usize| #[trigger]
                    final(self).listing().contains_key(a) ==> old(self).listing().contains_key(a)
                        || reachable_from_vectors(rom, a as int)
                &&& forall|a: int| #[trigger]
                    reachable_from_vectors(rom, a) && decodable(rom, a)
                        ==> final(self).listing().contains_key(a as usize)
                &&& listing_faithful(rom, final(self).listing(), final(self).labels())
                &&& is_closed(rom, final(self).listing().dom())
                &&& forall|role: Role| #[trigger]
                    old(self).labels().order(role).is_prefix_of(final(self).labels().order(role))
                &&& forall|role: Role| #[trigger] final(self).labels().order(role).no_duplicates()
            }),
    {
        if let Some((nmi, reset, irq)) = self.vectors() {
            let ghost listing0 = self.listing();
            let ghost labels0 = self.labels();
            let ghost rom = self.prg_rom();
            self.disassemble_from_entry_point(nmi, "NMI");
            let ghost listing1 = self.listing();
            let ghost labels1 = self.labels();
            self.disassemble_from_entry_point(irq, "IRQ");
            let ghost listing2 = self.listing();
            let ghost labels2 = self.labels();
            self.disassemble_from_entry_point(reset, "RESET");
            assert forall|a: usize| #[trigger]
                listing0.contains_key(a) implies self.listing().contains_key(a)
                    && self.listing()[a] == listing0[a] by {
                assert(listing1.contains_key(a));
                assert(listing2.contains_key(a));
            }
            assert forall|a: int| #[trigger]
                reachable_from_vectors(rom, a) && decodable(rom, a) implies self.listing().contains_key(
                a as usize,
            ) by {
                if reachable(rom, nmi as int, a) {
                    assert(listing1.contains_key(a as usize));
                    assert(listing2.contains_key(a as usize));
                } else if reachable(rom, irq as int, a) {
                    assert(listing2.contains_key(a as usize));
                }
            }
            assert forall|role: Role| #[trigger]
                labels0.order(role).is_prefix_of(self.labels().order(role)) by {
                assert(labels0.order(role).is_prefix_of(labels1.order(role)));
                assert(labels1.order(role).is_prefix_of(labels2.order(role)));
                assert(labels2.order(role).is_prefix_of(self.labels().order(role)));
                lemma_prefix_trans(labels0.order(role), labels1.order(role), labels2.order(role));
                lemma_prefix_trans(
                    labels0.order(role),
                    labels2.order(role),
                    self.labels().order(role),
                );
            }
        }
    }

    /// The label lines printed before the instruction at `address`: its entry
    /// name, then its branch-target, jump-target and subroutine labels.
    pub open spec fn label_lines_at(&self, address: usize) -> Seq<Seq<char>> {
        let labels = self.labels();
        (if self.entry_labels().contains_key(address) {
            seq![label_line(self.entry_labels()[address], address as nat)]
        } else {
            Seq::empty()
        }) + role_lines(labels, Role::BranchTarget, address) + role_lines(
            labels,
            Role::JumpTarget,
            address,
        ) + role_lines(labels, Role::Subroutine, address)
    }

    /// The listing from mapped address `address` on: at each address its label
    /// lines, then its instruction, which skips the bytes the instruction
    /// occupies.
    pub open spec fn rendered_from(&self, address: nat) -> Seq<Seq<char>>
        decreases 0x10000 - address,
    {
        if address >= 0x10000 {
            Seq::empty()
        } else {
            let a = address as usize;
            if self.listing().contains_key(a) {
                let line = self.listing()[a];
                let step: nat = if line.bytes == 0 {
                    1
                } else {
                    line.bytes as nat
                };
                self.label_lines_at(a) + seq![line.contents@] + (if address + step < 0x10000 {
                    self.rendered_from(address + step)
                } else {
                    Seq::empty()
                })
            } else {
                self.label_lines_at(a) + self.rendered_from(address + 1)
            }
        }
    }

    /// A listed instruction occupies one to three bytes.
    proof fn lemma_entry_length(&self, address: usize)
        requires
            self.wf(),
            self.text_lines@.contains_key(address),
        ensures
            1 <= self.text_lines@[address].bytes <= 3,
    {
        assert(entry_matches(
            self.prg_rom_contents@,
            address,
            self.text_lines@[address],
            self.labeller,
        ));
        let op = self.prg_rom_contents@[address - MAPPING_BASE];
        crate::instruction::lemma_instruction_length(op);
    }

    fn push_label_lines(&self, lines: &mut Vec<String>, address: usize)
        requires
            self.wf(),
            address < 0x10000,
        ensures
            final(lines)@.map_values(|s: String| s@) == old(lines)@.map_values(|s: String| s@)
                + self.label_lines_at(address),
    {
        let ghost before = lines@.map_values(|s: String| s@);
        if let Some(name) = self.global_labels.get(&address) {
            push_label_line(lines, name, address);
        }
        let ghost l1 = lines@.map_values(|s: String| s@);
        if let Some(label) = self.labeller.get_branch_target_label(address) {
            push_label_line(lines, label, address);
        }
        let ghost l2 = lines@.map_values(|s: String| s@);
        if let Some(label) = self.labeller.get_jump_target_label(address) {
            push_label_line(lines, label, address);
        }
        let ghost l3 = lines@.map_values(|s: String| s@);
        if let Some(label) = self.labeller.get_subroutine_label(address) {
            push_label_line(lines, label, address);
        }
        assert(l1 =~= before + (if self.entry_labels().contains_key(address) {
            seq![label_line(self.entry_labels()[address], address as nat)]
        } else {
            Seq::empty()
        }));
        assert(l2 =~= l1 + role_lines(self.labeller, Role::BranchTarget, address));
        assert(l3 =~= l2 + role_lines(self.labeller, Role::JumpTarget, address));
        assert(lines@.map_values(|s: String| s@) =~= l3 + role_lines(
            self.labeller,
            Role::Subroutine,
            address,
        ));
        assert(lines@.map_values(|s: String| s@) =~= before + self.label_lines_at(address));
    }

    /// Appends the lines of `address`; returns the next address to render.
    fn push_lines_at(&self, lines: &mut Vec<String>, address: usize) -> (next: usize)
        requires
            self.wf(),
            address < 0x10000,
        ensures
            address < next <= address + 3,
            final(lines)@.map_values(|s: String| s@) + self.rendered_from(next as nat) == old(
                lines,
            )@.map_values(|s: String| s@) + self.rendered_from(address as nat),
    {
        self.push_label_lines(lines, address);
        let ghost mid = lines@.map_values(|s: String| s@);
        match self.text_lines.get(&address) {
            Some(text_line) => {
                proof {
                    self.lemma_entry_length(address);
                }
                lines.push(text_line.contents.clone());
                assert(lines@.map_values(|s: String| s@) =~= mid + seq![text_line.contents@]);
                address + text_line.bytes
            },
            None => address + 1,
        }
    }

    /// The whole listing, one string per line, in address order over the
    /// 16-bit address space.
    pub fn disassembly_lines(&self) -> (r: Vec<String>)
        requires
            self.wf(),
        ensures
            r@.map_values(|s: String| s@) == self.rendered_from(0),
    {
        let mut lines: Vec<String> = Vec::new();
        let mut address: usize = 0;
        while address < 0x10000
            invariant
                self.wf(),
                address <= 0x10000 + 2,
                lines@.map_values(|s: String| s@) + self.rendered_from(address as nat)
                    == self.rendered_from(0),
            decreases 0x10000 + 2 - address,
        {
            address = self.push_lines_at(&mut lines, address);
        }
        assert(lines@.map_values(|s: String| s@) =~= self.rendered_from(0));
        lines
    }
}

/// A listing whose entries are all decodable has at most one entry per
/// 16-bit address.
proof fn lemma_listing_bounded(rom: Seq<u8>, listing: Map<usize, TextLine>, labels: Labeller)
    requires
        listing_faithful(rom, listing, labels),
    ensures
        listing.len() <= 0x10000,
{
    let range = Set::<usize>::range(0, 0x10000);
    vstd::set_lib::range_set_properties::<usize>(0, 0x10000);
    assert(listing.dom().subset_of(range));
    vstd::set_lib::lemma_len_subset(listing.dom(), range);
}

/// Listing one more decoded address, whose label request is applied to the
/// labels, extends the decoding order by that address.
proof fn lemma_allocated_step(
    rom: Seq<u8>,
    listed: Set<usize>,
    listed1: Set<usize>,
    listed2: Set<usize>,
    before: Labeller,
    mid: Labeller,
    after: Labeller,
    decoded: Seq<usize>,
    a: usize,
)
    requires
        allocated_by_decoding(rom, listed, listed1, before, mid, decoded),
        listed.subset_of(listed1),
        !listed1.contains(a),
        listed2 == listed1.insert(a),
        forall|role: Role| #[trigger]
            after.order(role) == order_after(
                mid.order(role),
                role,
                label_request(rom, a - MAPPING_BASE, a as nat),
            ),
    ensures
        allocated_by_decoding(rom, listed, listed2, before, after, decoded.push(a)),
{
    let d = decoded.push(a);
    lemma_push_origin(decoded, a);
    lemma_push_contains(decoded, Some(a));
    assert(d.drop_last() == decoded);
    assert forall|x: usize| #[trigger]
        d.contains(x) <==> listed2.contains(x) && !listed.contains(x) by {
        if x == a {
            assert(d[decoded.len() as int] == a);
            assert(d.contains(a));
        } else {
            if d.contains(x) {
                assert(decoded.contains(x));
            }
            if decoded.contains(x) {
                assert(d.contains(x));
            }
            assert(decoded.contains(x) <==> listed1.contains(x) && !listed.contains(x));
        }
    }
    assert forall|role: Role| #[trigger]
        after.order(role) == order_after_decoding(before.order(role), role, rom, d) by {
        assert(mid.order(role) == order_after_decoding(before.order(role), role, rom, decoded));
    }
    assert forall|i: int, j: int| 0 <= i < d.len() && 0 <= j < d.len() && i != j implies d[i]
        != d[j] by {
        if i < decoded.len() && j < decoded.len() {
        } else if i == decoded.len() {
            assert(decoded.contains(d[j]));
        } else {
            assert(decoded.contains(d[i]));
        }
    }
}

/// An entry stays faithful while the labels it names keep their numbers.
proof fn lemma_entry_stable(
    rom: Seq<u8>,
    a: usize,
    line: TextLine,
    labels: Labeller,
    grown: Labeller,
)
    requires
        forall|role: Role| #[trigger] labels.order(role).is_prefix_of(grown.order(role)),
        forall|role: Role| #[trigger] grown.order(role).no_duplicates(),
        entry_matches(rom, a, line, labels),
    ensures
        entry_matches(rom, a, line, grown),
{
    let off = a - MAPPING_BASE;
    if let Some((role, target)) = label_request(rom, off, a as nat) {
        assert(labels.order(role).is_prefix_of(grown.order(role)));
        assert(grown.order(role).no_duplicates());
        lemma_label_stable(role, labels.order(role), grown.order(role), target);
        let i = labels.order(role).index_of(target);
        assert(labels.order(role)[i] == target);
        assert(grown.order(role)[i] == target);
    }
    assert(instruction_text(rom, off, a as nat, labels) == instruction_text(
        rom,
        off,
        a as nat,
        grown,
    ));
}

/// A label request only appends to an allocation order.
proof fn lemma_order_grows(order: Seq<usize>, role: Role, request: Option<(Role, usize)>)
    ensures
        order.is_prefix_of(order_after(order, role, request)),
{
    assert(order =~= order_after(order, role, request).subrange(0, order.len() as int));
}

} // verus!
