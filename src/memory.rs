//! The kernel's virtual address layout: a fixed table of special ranges, each with
//! a translation rule and an attribute bundle, consulted when the MMU is set up.
use crate::text::{
    dec_text, hex_text, pad_left, pad_right, push_dec, push_hex, push_padded_left,
    push_padded_right,
};
use vstd::prelude::*;

verus! {

/// How a virtual address inside a range maps to a physical one.
#[derive(Clone, Copy, PartialEq, Eq, Debug, Structural)]
pub enum Translation {
    Identity,
    Offset(usize),
}

/// Cacheability class of a range.
#[derive(Clone, Copy, PartialEq, Eq, Debug, Structural)]
pub enum MemAttributes {
    CacheableDRAM,
    Device,
}

/// Access permission of a range.
#[derive(Clone, Copy, PartialEq, Eq, Debug, Structural)]
pub enum AccessPermissions {
    ReadOnly,
    ReadWrite,
}

/// The attribute bundle applied to a range.
#[derive(Clone, Copy, PartialEq, Eq, Debug, Structural)]
pub struct AttributeFields {
    pub mem_attributes: MemAttributes,
    pub acc_perms: AccessPermissions,
    pub execute_never: bool,
}

impl AttributeFields {
    /// The bundle of ordinary RAM: cacheable, read-write, never executed.
    pub open spec fn spec_default() -> AttributeFields {
        AttributeFields {
            mem_attributes: MemAttributes::CacheableDRAM,
            acc_perms: AccessPermissions::ReadWrite,
            execute_never: true,
        }
    }
}

impl Default for AttributeFields {
    fn default() -> (r: Self)
        ensures
            r == AttributeFields::spec_default(),
    {
        AttributeFields {
            mem_attributes: MemAttributes::CacheableDRAM,
            acc_perms: AccessPermissions::ReadWrite,
            execute_never: true,
        }
    }
}

/// An inclusive interval of virtual addresses, `start..=end_inclusive`.
///
/// Bounds that are only known after linking are resolved before the
/// descriptor is built.
#[derive(Clone, Copy, PartialEq, Eq, Debug, Structural)]
pub struct VirtualRange {
    pub start: usize,
    pub end_inclusive: usize,
}

impl VirtualRange {
    pub open spec fn spec_contains(self, addr: usize) -> bool {
        self.start <= addr && addr <= self.end_inclusive
    }

    pub fn contains(&self, addr: usize) -> (r: bool)
        ensures
            r == self.spec_contains(addr),
    {
        self.start <= addr && addr <= self.end_inclusive
    }
}

/// The two intervals share an address.
pub open spec fn ranges_overlap(a: VirtualRange, b: VirtualRange) -> bool {
    a.start <= b.end_inclusive && b.start <= a.end_inclusive
}

/// No two ranges of `ranges` share an address.
pub open spec fn pairwise_disjoint(ranges: Seq<RangeDescriptor>) -> bool {
    forall|i: int, j: int|
        0 <= i < j < ranges.len() ==> !ranges_overlap(
            #[trigger] ranges[i].virtual_range,
            #[trigger] ranges[j].virtual_range,
        )
}

/// A named special range with its translation rule and attributes.
pub struct RangeDescriptor {
    pub name: &'static str,
    pub virtual_range: VirtualRange,
    pub translation: Translation,
    pub attribute_fields: AttributeFields,
}

impl RangeDescriptor {
    /// Where `addr`, taken to lie in this range, is translated to.
    pub open spec fn spec_output_addr(self, addr: usize) -> int {
        match self.translation {
            Translation::Identity => addr as int,
            Translation::Offset(base) => base + (addr - self.virtual_range.start),
        }
    }

    /// The interval is not empty, and every address of it translates to an
    /// address that fits in `usize`.
    pub open spec fn is_valid(self) -> bool {
        &&& self.virtual_range.start <= self.virtual_range.end_inclusive
        &&& match self.translation {
            Translation::Identity => true,
            Translation::Offset(base) => base + (self.virtual_range.end_inclusive
                - self.virtual_range.start) <= usize::MAX,
        }
    }

    /// The number of bytes in the range.
    pub open spec fn spec_size(self) -> nat {
        (self.virtual_range.end_inclusive - self.virtual_range.start + 1) as nat
    }

    /// The report line of the range: bounds, size, attribute codes and name.
    pub open spec fn report_line(self) -> Seq<char> {
        let (size, unit) = size_text(self.spec_size());
        "      "@ + hex_field(self.virtual_range.start as nat) + " - "@ + hex_field(
            self.virtual_range.end_inclusive as nat,
        ) + " | "@ + pad_left(dec_text(size), 3, ' ') + " "@ + unit + " | "@ + pad_right(
            mem_code(self.attribute_fields.mem_attributes),
            3,
            ' ',
        ) + " "@ + acc_code(self.attribute_fields.acc_perms) + " "@ + pad_right(
            xn_code(self.attribute_fields.execute_never),
            3,
            ' ',
        ) + " | "@ + self.name@
    }

    /// Renders the report line of the range.
    pub fn to_string(&self) -> (r: String)
        requires
            self.virtual_range.start <= self.virtual_range.end_inclusive,
        ensures
            r@ == self.report_line(),
    {
        let start = self.virtual_range.start;
        let end = self.virtual_range.end_inclusive;
        let size: u128 = (end - start) as u128 + 1;
        let (size, unit) = if size >= MIB {
            (size / MIB, "MiB")
        } else if size >= KIB {
            (size / KIB, "KiB")
        } else {
            (size, "Byte")
        };
        let attr = match self.attribute_fields.mem_attributes {
            MemAttributes::CacheableDRAM => "C",
            MemAttributes::Device => "Dev",
        };
        let acc_p = match self.attribute_fields.acc_perms {
            AccessPermissions::ReadOnly => "RO",
            AccessPermissions::ReadWrite => "RW",
        };
        let xn = if self.attribute_fields.execute_never {
            "PXN"
        } else {
            "PX"
        };
        let mut line = String::new();
        line.append("      ");
        push_hex_field(&mut line, start as u64);
        line.append(" - ");
        push_hex_field(&mut line, end as u64);
        line.append(" | ");
        let mut digits = String::new();
        push_dec(&mut digits, size);
        push_padded_left(&mut line, digits.as_str(), 3, ' ');
        line.append(" ");
        line.append(unit);
        line.append(" | ");
        push_padded_right(&mut line, attr, 3, ' ');
        line.append(" ");
        line.append(acc_p);
        line.append(" ");
        push_padded_right(&mut line, xn, 3, ' ');
        line.append(" | ");
        line.append(self.name);
        assert(line@ =~= self.report_line());
        line
    }
}

/// Bytes in a KiB.
pub const KIB: u128 = 1024;

/// Bytes in a MiB.
pub const MIB: u128 = 1048576;

/// A size in bytes, brought to MiB or KiB where it holds at least one, with its unit.
pub open spec fn size_text(size: nat) -> (nat, Seq<char>) {
    if size >= MIB {
        (size / MIB as nat, "MiB"@)
    } else if size >= KIB {
        (size / KIB as nat, "KiB"@)
    } else {
        (size, "Byte"@)
    }
}

/// `n` as `0x` and at least eight hexadecimal digits.
pub open spec fn hex_field(n: nat) -> Seq<char> {
    "0x"@ + pad_left(hex_text(n), 8, '0')
}

pub open spec fn mem_code(m: MemAttributes) -> Seq<char> {
    match m {
        MemAttributes::CacheableDRAM => "C"@,
        MemAttributes::Device => "Dev"@,
    }
}

pub open spec fn acc_code(a: AccessPermissions) -> Seq<char> {
    match a {
        AccessPermissions::ReadOnly => "RO"@,
        AccessPermissions::ReadWrite => "RW"@,
    }
}

pub open spec fn xn_code(execute_never: bool) -> Seq<char> {
    if execute_never {
        "PXN"@
    } else {
        "PX"@
    }
}

fn push_hex_field(s: &mut String, n: u64)
    ensures
        final(s)@ == old(s)@ + hex_field(n as nat),
{
    s.append("0x");
    let mut digits = String::new();
    push_hex(&mut digits, n);
    push_padded_left(s, digits.as_str(), 8, '0');
    assert(final(s)@ =~= old(s)@ + hex_field(n as nat));
}

/// `i` is the first range of `ranges`, in table order, that holds `addr`.
pub open spec fn is_first_match(ranges: Seq<RangeDescriptor>, addr: usize, i: int) -> bool {
    &&& 0 <= i < ranges.len()
    &&& ranges[i].virtual_range.spec_contains(addr)
    &&& forall|j: int| 0 <= j < i ==> !(#[trigger] ranges[j].virtual_range.spec_contains(addr))
}

/// No range of `ranges` holds `addr`.
pub open spec fn in_no_range(ranges: Seq<RangeDescriptor>, addr: usize) -> bool {
    forall|j: int| 0 <= j < ranges.len() ==> !(#[trigger] ranges[j].virtual_range.spec_contains(addr))
}

/// Every range of `ranges` is valid.
pub open spec fn all_ranges_valid(ranges: Seq<RangeDescriptor>) -> bool {
    forall|j: int| 0 <= j < ranges.len() ==> (#[trigger] ranges[j]).is_valid()
}

/// What a lookup of `addr` gives: `None` above `max`, else the output address and
/// attributes of the first range that holds `addr`, else `addr` itself with the
/// default bundle.
pub open spec fn resolve(ranges: Seq<RangeDescriptor>, max: usize, addr: usize) -> Option<
    (usize, AttributeFields),
> {
    if addr > max {
        None
    } else if exists|i: int| is_first_match(ranges, addr, i) {
        let i = choose|i: int| is_first_match(ranges, addr, i);
        Some((ranges[i].spec_output_addr(addr) as usize, ranges[i].attribute_fields))
    } else {
        Some((addr, AttributeFields::spec_default()))
    }
}

/// The report lines of `ranges`, each ended by a newline.
pub open spec fn report_text(ranges: Seq<RangeDescriptor>) -> Seq<char>
    decreases ranges.len(),
{
    if ranges.len() == 0 {
        Seq::empty()
    } else {
        report_text(ranges.drop_last()) + ranges.last().report_line() + "\n"@
    }
}

/// The first match of an address is unique.
pub proof fn lemma_first_match_unique(ranges: Seq<RangeDescriptor>, addr: usize, i: int, k: int)
    requires
        is_first_match(ranges, addr, i),
        is_first_match(ranges, addr, k),
    ensures
        i == k,
{
    if i < k {
        assert(!ranges[i].virtual_range.spec_contains(addr));
    } else if k < i {
        assert(!ranges[k].virtual_range.spec_contains(addr));
    }
}

/// The table of special ranges and the largest valid virtual address.
pub struct KernelVirtualLayout<const NUM_SPECIAL_RANGES: usize> {
    max_virt_addr_inclusive: usize,
    inner: [RangeDescriptor; NUM_SPECIAL_RANGES],
}

impl<const NUM_SPECIAL_RANGES: usize> KernelVirtualLayout<NUM_SPECIAL_RANGES> {
    #[verifier::type_invariant]
    closed spec fn wf(self) -> bool {
        all_ranges_valid(self.inner@)
    }

    /// The ranges, in match order.
    pub closed spec fn ranges(self) -> Seq<RangeDescriptor> {
        self.inner@
    }

    /// The largest valid virtual address.
    pub closed spec fn max(self) -> usize {
        self.max_virt_addr_inclusive
    }

    /// The result of a lookup of `addr` in this layout.
    pub open spec fn spec_lookup(self, addr: usize) -> Option<(usize, AttributeFields)> {
        resolve(self.ranges(), self.max(), addr)
    }

    pub fn new(max: usize, layout: [RangeDescriptor; NUM_SPECIAL_RANGES]) -> (r: Self)
        requires
            all_ranges_valid(layout@),
        ensures
            r.max() == max,
            r.ranges() == layout@,
    {
        KernelVirtualLayout { max_virt_addr_inclusive: max, inner: layout }
    }

    /// The output address and attributes of `virt_addr`, or an error when it lies
    /// above the largest valid address.
    pub fn get_virtual_addr_properties(&self, virt_addr: usize) -> (r: Result<
        (usize, AttributeFields),
        &'static str,
    >)
        ensures
            r is Ok <==> virt_addr <= self.max(),
            r matches Ok(p) ==> self.spec_lookup(virt_addr) == Some(p),
            r matches Err(msg) ==> self.spec_lookup(virt_addr) is None && msg@
                == "Address out of bound"@,
    {
        proof {
            use_type_invariant(self);
        }
        if virt_addr > self.max_virt_addr_inclusive {
            return Err("Address out of bound");
        }
        let ghost ranges = self.inner@;
        let mut i: usize = 0;
        while i < NUM_SPECIAL_RANGES
            invariant
                ranges == self.inner@,
                ranges.len() == NUM_SPECIAL_RANGES,
                all_ranges_valid(ranges),
                i <= NUM_SPECIAL_RANGES,
                virt_addr <= self.max_virt_addr_inclusive,
                forall|j: int| 0 <= j < i ==> !(#[trigger] ranges[j].virtual_range.spec_contains(virt_addr)),
            decreases NUM_SPECIAL_RANGES - i,
        {
            let d = &self.inner[i];
            if d.virtual_range.contains(virt_addr) {
                proof {
                    assert(is_first_match(ranges, virt_addr, i as int));
                    let k = choose|k: int| is_first_match(ranges, virt_addr, k);
                    lemma_first_match_unique(ranges, virt_addr, i as int, k);
                    assert(ranges[i as int].is_valid());
                }
                let output_addr = match d.translation {
                    Translation::Identity => virt_addr,
                    Translation::Offset(base) => base + (virt_addr - d.virtual_range.start),
                };
                return Ok((output_addr, d.attribute_fields));
            }
            i = i + 1;
        }
        assert(!exists|k: int| is_first_match(ranges, virt_addr, k));
        Ok((virt_addr, AttributeFields::default()))
    }

    /// Whether no two ranges share an address. Lookups do not need it, since the
    /// first range in table order wins, but overlapping ranges usually mean a
    /// mistake in the table.
    pub fn ranges_disjoint(&self) -> (r: bool)
        ensures
            r == pairwise_disjoint(self.ranges()),
    {
        let ghost ranges = self.inner@;
        let mut i: usize = 0;
        while i < NUM_SPECIAL_RANGES
            invariant
                ranges == self.inner@,
                ranges.len() == NUM_SPECIAL_RANGES,
                i <= NUM_SPECIAL_RANGES,
                forall|a: int, b: int|
                    0 <= a < i && a < b < ranges.len() ==> !ranges_overlap(
                        #[trigger] ranges[a].virtual_range,
                        #[trigger] ranges[b].virtual_range,
                    ),
            decreases NUM_SPECIAL_RANGES - i,
        {
            let mut j: usize = i + 1;
            while j < NUM_SPECIAL_RANGES
                invariant
                    ranges == self.inner@,
                    ranges.len() == NUM_SPECIAL_RANGES,
                    i < NUM_SPECIAL_RANGES,
                    i < j <= NUM_SPECIAL_RANGES,
                    forall|a: int, b: int|
                        0 <= a < i && a < b < ranges.len() ==> !ranges_overlap(
                            #[trigger] ranges[a].virtual_range,
                            #[trigger] ranges[b].virtual_range,
                        ),
                    forall|b: int|
                        i < b < j ==> !ranges_overlap(
                            ranges[i as int].virtual_range,
                            #[trigger] ranges[b].virtual_range,
                        ),
                decreases NUM_SPECIAL_RANGES - j,
            {
                let a = self.inner[i].virtual_range;
                let b = self.inner[j].virtual_range;
                if a.start <= b.end_inclusive && b.start <= a.end_inclusive {
                    assert(ranges_overlap(ranges[i as int].virtual_range, ranges[j as int].virtual_range));
                    return false;
                }
                j = j + 1;
            }
            i = i + 1;
        }
        true
    }

    /// The report lines of the ranges, in table order.
    pub fn print_layout(&self) -> (r: Vec<String>)
        ensures
            r@.len() == self.ranges().len(),
            forall|i: int| 0 <= i < r@.len() ==> (#[trigger] r@[i])@ == self.ranges()[i].report_line(),
    {
        proof {
            use_type_invariant(self);
        }
        let mut lines: Vec<String> = Vec::new();
        let mut i: usize = 0;
        while i < NUM_SPECIAL_RANGES
            invariant
                self.inner@.len() == NUM_SPECIAL_RANGES,
                all_ranges_valid(self.inner@),
                i <= NUM_SPECIAL_RANGES,
                lines@.len() == i,
                forall|k: int| 0 <= k < i ==> (#[trigger] lines@[k])@ == self.inner@[k].report_line(),
            decreases NUM_SPECIAL_RANGES - i,
        {
            assert(self.inner@[i as int].is_valid());
            lines.push(self.inner[i].to_string());
            i = i + 1;
        }
        lines
    }

    /// The whole report: the largest valid address, then one line per range.
    pub fn to_string(&self) -> (r: String)
        ensures
            r@ == "Max Virtual Address: "@ + dec_text(self.max() as nat) + "\n"@ + report_text(
                self.ranges(),
            ),
    {
        proof {
            use_type_invariant(self);
        }
        let mut text = String::new();
        text.append("Max Virtual Address: ");
        push_dec(&mut text, self.max_virt_addr_inclusive as u128);
        text.append("\n");
        let ghost head = text@;
        let mut i: usize = 0;
        while i < NUM_SPECIAL_RANGES
            invariant
                self.inner@.len() == NUM_SPECIAL_RANGES,
                all_ranges_valid(self.inner@),
                i <= NUM_SPECIAL_RANGES,
                text@ == head + report_text(self.inner@.subrange(0, i as int)),
            decreases NUM_SPECIAL_RANGES - i,
        {
            assert(self.inner@[i as int].is_valid());
            let line = self.inner[i].to_string();
            text.append(line.as_str());
            text.append("\n");
            proof {
                let next = self.inner@.subrange(0, i + 1);
                assert(next.drop_last() =~= self.inner@.subrange(0, i as int));
                assert(text@ =~= head + report_text(next));
            }
            i = i + 1;
        }
        assert(self.inner@.subrange(0, NUM_SPECIAL_RANGES as int) =~= self.inner@);
        text
    }
}

/// A lookup of an address at or below the maximum that lies in exactly one range
/// gives that range's translation and attributes.
pub proof fn lemma_lookup_single_range<const N: usize>(
    layout: KernelVirtualLayout<N>,
    addr: usize,
    i: int,
)
    requires
        addr <= layout.max(),
        0 <= i < layout.ranges().len(),
        layout.ranges()[i].virtual_range.spec_contains(addr),
        forall|j: int|
            0 <= j < layout.ranges().len() && j != i
                ==> !(#[trigger] layout.ranges()[j].virtual_range.spec_contains(addr)),
    ensures
        layout.spec_lookup(addr) == Some(
            (
                layout.ranges()[i].spec_output_addr(addr) as usize,
                layout.ranges()[i].attribute_fields,
            ),
        ),
{
    let ranges = layout.ranges();
    assert(is_first_match(ranges, addr, i));
    let k = choose|k: int| is_first_match(ranges, addr, k);
    lemma_first_match_unique(ranges, addr, i, k);
}

/// A lookup of an address at or below the maximum that lies in no range gives
/// the address itself with the default bundle.
pub proof fn lemma_lookup_no_range<const N: usize>(layout: KernelVirtualLayout<N>, addr: usize)
    requires
        addr <= layout.max(),
        in_no_range(layout.ranges(), addr),
    ensures
        layout.spec_lookup(addr) == Some((addr, AttributeFields::spec_default())),
{
    assert(!exists|k: int| is_first_match(layout.ranges(), addr, k));
}

/// A lookup of an address above the maximum gives no address and no attributes.
pub proof fn lemma_lookup_above_max<const N: usize>(layout: KernelVirtualLayout<N>, addr: usize)
    requires
        addr > layout.max(),
    ensures
        layout.spec_lookup(addr) is None,
{
}

} // verus!
