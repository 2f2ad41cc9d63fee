//! The mapped sections of the target executable, read from the image
//! headers at its base: the section table's position comes from the legacy
//! header, and each entry names one section with its virtual address and
//! raw size.
use crate::memory::MemoryImage;
use crate::vtable::push_char;
use vstd::prelude::*;

verus! {

/// One mapped section of the executable: its eight-byte name, its virtual
/// address, and the size of its raw data.
#[derive(Debug)]
pub struct MemorySection {
    pub name: Vec<u8>,
    pub address: u64,
    pub size: u64,
}

impl MemorySection {
    /// The section's name bytes, read as characters.
    pub fn get_name(&self) -> (r: String)
        ensures
            r@ == Seq::new(self.name@.len(), |i: int| self.name@[i] as char),
    {
        let mut out = String::new();
        let mut i: usize = 0;
        while i < self.name.len()
            invariant
                i <= self.name@.len(),
                out@ == Seq::new(self.name@.len(), |k: int| self.name@[k] as char).take(i as int),
            decreases self.name@.len() - i,
        {
            let b = self.name[i];
            push_char(&mut out, b as char);
            proof {
                assert(out@ =~= Seq::new(self.name@.len(), |k: int| self.name@[k] as char).take(
                    i + 1,
                ));
            }
            i = i + 1;
        }
        proof {
            assert(Seq::new(self.name@.len(), |k: int| self.name@[k] as char).take(
                self.name@.len() as int,
            ) =~= Seq::new(self.name@.len(), |k: int| self.name@[k] as char));
        }
        out
    }

    pub fn get_virtual_address(&self) -> (r: u64)
        ensures
            r == self.address,
    {
        self.address
    }

    pub fn get_size(&self) -> (r: u64)
        ensures
            r == self.size,
    {
        self.size
    }
}

/// Where the section table lies: the offset field of the legacy header at
/// the image base, plus the fixed size of the modern headers.
pub open spec fn spec_section_table_start(img: &MemoryImage) -> int {
    img.base + img.spec_dword_at_i(img.base + 0x3c) + 264
}

/// The number of sections the file header declares.
pub open spec fn spec_section_count(img: &MemoryImage) -> int {
    img.spec_word_at_i(img.base + img.spec_dword_at_i(img.base + 0x3c) + 6) as int
}

/// Whether the whole section table is readable inside the image.
pub open spec fn spec_sections_readable(img: &MemoryImage) -> bool {
    &&& img.spec_range_in_image_i(img.base as int, 0x40)
    &&& img.spec_range_in_image_i(img.base + img.spec_dword_at_i(img.base + 0x3c), 8)
    &&& spec_section_table_start(img) + 40 * spec_section_count(img) <= u64::MAX
    &&& img.spec_range_in_image_i(
        spec_section_table_start(img),
        40 * spec_section_count(img),
    )
}

/// The fields of section `k`: its name bytes, its virtual address relative
/// to the base, and its raw size.
pub open spec fn spec_section_name(img: &MemoryImage, k: int) -> Seq<u8> {
    let sh = spec_section_table_start(img) + 40 * k;
    Seq::new(8, |i: int| img.spec_byte_at_i(sh + i))
}

pub open spec fn spec_section_va(img: &MemoryImage, k: int) -> u32 {
    img.spec_dword_at_i(spec_section_table_start(img) + 40 * k + 12)
}

pub open spec fn spec_section_size(img: &MemoryImage, k: int) -> u32 {
    img.spec_dword_at_i(spec_section_table_start(img) + 40 * k + 16)
}

/// Reads the section table of the loaded image. `None` means the headers
/// do not fit inside the image and no section list can be produced.
pub fn get_memory_sections(img: &MemoryImage) -> (r: Option<Vec<MemorySection>>)
    requires
        img.spec_wf(),
    ensures
        match r {
            Some(v) => {
                &&& spec_sections_readable(img)
                &&& v@.len() == spec_section_count(img)
                &&& forall|k: int|
                    0 <= k < v@.len() ==> (#[trigger] v@[k]).name@ == spec_section_name(img, k)
                        && v@[k].address == vstd::wrapping::u64_specs::wrapping_add(
                        img.base,
                        spec_section_va(img, k) as u64,
                    ) && v@[k].size == spec_section_size(img, k) as u64
            },
            None => !spec_sections_readable(img),
        },
{
    if !img.range_in_image(img.base, 0x40) {
        return None;
    }
    let e_lfanew = img.dword_at(img.base + 0x3c) as u64;
    if e_lfanew > u64::MAX - img.base {
        proof {
            assert(!img.spec_range_in_image_i(img.base + e_lfanew, 8));
        }
        return None;
    }
    let nt = img.base + e_lfanew;
    if !img.range_in_image(nt, 8) {
        return None;
    }
    let count = img.word_at(nt + 6) as u64;
    if nt > u64::MAX - 264 {
        proof {
            assert(40 * count >= 0) by (nonlinear_arith)
                requires
                    count >= 0,
            ;
            assert(!spec_sections_readable(img));
        }
        return None;
    }
    let table = nt + 264;
    if count > (u64::MAX - table) / 40 {
        proof {
            assert(table + 40 * count > u64::MAX) by (nonlinear_arith)
                requires
                    count > (u64::MAX - table) / 40,
                    table <= u64::MAX,
                    count <= u64::MAX,
            ;
            assert(!spec_sections_readable(img));
        }
        return None;
    }
    proof {
        assert(40 * count <= u64::MAX - table) by (nonlinear_arith)
            requires
                count <= (u64::MAX - table) / 40,
                table <= u64::MAX,
        ;
    }
    if !img.range_in_image(table, 40 * count) {
        return None;
    }
    let mut out: Vec<MemorySection> = Vec::new();
    let mut k: u64 = 0;
    while k < count
        invariant
            img.spec_wf(),
            spec_sections_readable(img),
            k <= count,
            table == spec_section_table_start(img),
            count == spec_section_count(img),
            table + 40 * count <= u64::MAX + 1,
            out@.len() == k,
            forall|j: int|
                0 <= j < k ==> (#[trigger] out@[j]).name@ == spec_section_name(img, j)
                    && out@[j].address == vstd::wrapping::u64_specs::wrapping_add(
                    img.base,
                    spec_section_va(img, j) as u64,
                ) && out@[j].size == spec_section_size(img, j) as u64,
        decreases count - k,
    {
        proof {
            assert(40 * (k + 1) <= 40 * count) by (nonlinear_arith)
                requires
                    k < count,
            ;
            assert(40 * k >= 0) by (nonlinear_arith)
                requires
                    k >= 0,
            ;
        }
        let sh = table + 40 * k;
        let mut name: Vec<u8> = Vec::new();
        let mut i: u64 = 0;
        while i < 8
            invariant
                img.spec_wf(),
                spec_sections_readable(img),
                table == spec_section_table_start(img),
                count == spec_section_count(img),
                table + 40 * count <= u64::MAX + 1,
                k < count,
                sh == table + 40 * k,
                40 * k + 40 <= 40 * count,
                i <= 8,
                name@.len() == i,
                forall|j: int| 0 <= j < i ==> name@[j] == img.spec_byte_at_i(sh + j),
            decreases 8 - i,
        {
            let b = img.byte_at(sh + i);
            name.push(b);
            i = i + 1;
        }
        proof {
            assert(name@ =~= spec_section_name(img, k as int));
        }
        let va = img.dword_at(sh + 12) as u64;
        let size = img.dword_at(sh + 16) as u64;
        let address = img.base.wrapping_add(va);
        out.push(MemorySection { name, address, size });
        k = k + 1;
    }
    Some(out)
}

} // verus!
