//! Instruction sequences that are built out of several RSP instructions.

use vstd::prelude::*;

use crate::rsp::rsp_assembler::{
    cop2_word, lemma_emits_concat, lemma_li_loads_immediate, main_immediate_word, vector_word, Element, RSPAssembler, CP2_MTC2,
    E, GPR, OP_ORI, VECTOR_VADD, VECTOR_VADDC, VECTOR_VMADH, VECTOR_VMUDH, VECTOR_VXOR, VR,
};

verus! {

/// The instructions that [`assemble_set_accumulator_to`] emits.
pub open spec fn set_accumulator_program(top: VR, mid: VR, low: VR, scratch: VR, scratch2: VR, scratch3: VR, scratch_gpr: GPR) -> Seq<u32> {
    seq![
        cop2_word(CP2_MTC2, scratch2.spec_index() as u32, 0, 0),
        main_immediate_word(OP_ORI, scratch_gpr.spec_index() as u32, 0, 0x4000),
        cop2_word(CP2_MTC2, scratch2.spec_index() as u32, scratch_gpr.spec_index() as u32, 2),
        main_immediate_word(OP_ORI, scratch_gpr.spec_index() as u32, 0, 1),
        cop2_word(CP2_MTC2, scratch2.spec_index() as u32, scratch_gpr.spec_index() as u32, 4),
        vector_word(VECTOR_VADDC, scratch.spec_index() as u32, mid.spec_index() as u32, mid.spec_index() as u32, 0),
        vector_word(VECTOR_VXOR, scratch.spec_index() as u32, scratch.spec_index() as u32, scratch.spec_index() as u32, 0),
        vector_word(VECTOR_VADD, scratch.spec_index() as u32, scratch2.spec_index() as u32, scratch.spec_index() as u32, 8),
        vector_word(VECTOR_VADDC, scratch.spec_index() as u32, scratch.spec_index() as u32, top.spec_index() as u32, 0),
        vector_word(VECTOR_VMUDH, scratch3.spec_index() as u32, scratch2.spec_index() as u32, scratch.spec_index() as u32, 9),
        vector_word(VECTOR_VMADH, scratch3.spec_index() as u32, scratch2.spec_index() as u32, scratch.spec_index() as u32, 9),
        vector_word(VECTOR_VMADH, scratch3.spec_index() as u32, scratch2.spec_index() as u32, scratch.spec_index() as u32, 9),
        vector_word(VECTOR_VMADH, scratch3.spec_index() as u32, scratch2.spec_index() as u32, scratch.spec_index() as u32, 9),
        vector_word(VECTOR_VMADH, scratch3.spec_index() as u32, scratch2.spec_index() as u32, mid.spec_index() as u32, 10),
        vector_word(VECTOR_VADDC, scratch3.spec_index() as u32, scratch2.spec_index() as u32, low.spec_index() as u32, 8),
    ]
}

/// Sets the accumulator to the value that is currently in the three registers top::mid::low.
pub fn assemble_set_accumulator_to(assembler: &mut RSPAssembler, top: VR, mid: VR, low: VR, scratch: VR, scratch2: VR, scratch3: VR, scratch_gpr: GPR)
    ensures
        RSPAssembler::emits(*old(assembler), *final(assembler), set_accumulator_program(top, mid, low, scratch, scratch2, scratch3, scratch_gpr)),
{
    let ghost start = *assembler;
    // Put some constants that we need into scratch2: 0000 4000 0001
    assembler.write_mtc2(scratch2, GPR::R0, E::_0);
    let ghost mut emitted: Seq<u32> = seq![cop2_word(CP2_MTC2, scratch2.spec_index() as u32, 0, 0)];
    let ghost before = *assembler;
    proof {
        lemma_li_loads_immediate(0x4000);
    }
    assembler.write_li(scratch_gpr, 0x4000);
    proof {
        lemma_emits_concat(start, before, *assembler, emitted, seq![main_immediate_word(OP_ORI, scratch_gpr.spec_index() as u32, 0, 0x4000)]);
        emitted = emitted + seq![main_immediate_word(OP_ORI, scratch_gpr.spec_index() as u32, 0, 0x4000)];
    }
    let ghost before = *assembler;
    assembler.write_mtc2(scratch2, scratch_gpr, E::_2);
    proof {
        lemma_emits_concat(start, before, *assembler, emitted, seq![cop2_word(CP2_MTC2, scratch2.spec_index() as u32, scratch_gpr.spec_index() as u32, 2)]);
        emitted = emitted + seq![cop2_word(CP2_MTC2, scratch2.spec_index() as u32, scratch_gpr.spec_index() as u32, 2)];
    }
    let ghost before = *assembler;
    proof {
        lemma_li_loads_immediate(1);
    }
    assembler.write_li(scratch_gpr, 1);
    proof {
        lemma_emits_concat(start, before, *assembler, emitted, seq![main_immediate_word(OP_ORI, scratch_gpr.spec_index() as u32, 0, 1)]);
        emitted = emitted + seq![main_immediate_word(OP_ORI, scratch_gpr.spec_index() as u32, 0, 1)];
    }
    let ghost before = *assembler;
    assembler.write_mtc2(scratch2, scratch_gpr, E::_4);
    proof {
        lemma_emits_concat(start, before, *assembler, emitted, seq![cop2_word(CP2_MTC2, scratch2.spec_index() as u32, scratch_gpr.spec_index() as u32, 4)]);
        emitted = emitted + seq![cop2_word(CP2_MTC2, scratch2.spec_index() as u32, scratch_gpr.spec_index() as u32, 4)];
    }
    // Set top part through 4 VMADH, then middle part through 1 VMADH. When the middle part is
    // negative, it takes 1 from the top part, so add 1 to the top part whenever mid is negative.
    // Set VCO.low if the number is negative
    let ghost before = *assembler;
    assembler.write_vaddc(scratch, mid, mid, Element::All);
    proof {
        lemma_emits_concat(start, before, *assembler, emitted, seq![vector_word(VECTOR_VADDC, scratch.spec_index() as u32, mid.spec_index() as u32, mid.spec_index() as u32, 0)]);
        emitted = emitted + seq![vector_word(VECTOR_VADDC, scratch.spec_index() as u32, mid.spec_index() as u32, mid.spec_index() as u32, 0)];
    }
    let ghost before = *assembler;
    assembler.write_vxor(scratch, scratch, scratch, Element::All);
    proof {
        lemma_emits_concat(start, before, *assembler, emitted, seq![vector_word(VECTOR_VXOR, scratch.spec_index() as u32, scratch.spec_index() as u32, scratch.spec_index() as u32, 0)]);
        emitted = emitted + seq![vector_word(VECTOR_VXOR, scratch.spec_index() as u32, scratch.spec_index() as u32, scratch.spec_index() as u32, 0)];
    }
    // Set scratch to 1 if VCO.low, 0 otherwise
    let ghost before = *assembler;
    assembler.write_vadd(scratch, scratch2, scratch, Element::_0);
    proof {
        lemma_emits_concat(start, before, *assembler, emitted, seq![vector_word(VECTOR_VADD, scratch.spec_index() as u32, scratch2.spec_index() as u32, scratch.spec_index() as u32, 8)]);
        emitted = emitted + seq![vector_word(VECTOR_VADD, scratch.spec_index() as u32, scratch2.spec_index() as u32, scratch.spec_index() as u32, 8)];
    }
    // Add 0/1 to top, without saturation
    let ghost before = *assembler;
    assembler.write_vaddc(scratch, scratch, top, Element::All);
    proof {
        lemma_emits_concat(start, before, *assembler, emitted, seq![vector_word(VECTOR_VADDC, scratch.spec_index() as u32, scratch.spec_index() as u32, top.spec_index() as u32, 0)]);
        emitted = emitted + seq![vector_word(VECTOR_VADDC, scratch.spec_index() as u32, scratch.spec_index() as u32, top.spec_index() as u32, 0)];
    }
    // Accumulator top: multiply by 16384 and add up four times
    let ghost before = *assembler;
    assembler.write_vmudh(scratch3, scratch2, scratch, Element::_1);
    proof {
        lemma_emits_concat(start, before, *assembler, emitted, seq![vector_word(VECTOR_VMUDH, scratch3.spec_index() as u32, scratch2.spec_index() as u32, scratch.spec_index() as u32, 9)]);
        emitted = emitted + seq![vector_word(VECTOR_VMUDH, scratch3.spec_index() as u32, scratch2.spec_index() as u32, scratch.spec_index() as u32, 9)];
    }
    let ghost before = *assembler;
    assembler.write_vmadh(scratch3, scratch2, scratch, Element::_1);
    proof {
        lemma_emits_concat(start, before, *assembler, emitted, seq![vector_word(VECTOR_VMADH, scratch3.spec_index() as u32, scratch2.spec_index() as u32, scratch.spec_index() as u32, 9)]);
        emitted = emitted + seq![vector_word(VECTOR_VMADH, scratch3.spec_index() as u32, scratch2.spec_index() as u32, scratch.spec_index() as u32, 9)];
    }
    let ghost before = *assembler;
    assembler.write_vmadh(scratch3, scratch2, scratch, Element::_1);
    proof {
        lemma_emits_concat(start, before, *assembler, emitted, seq![vector_word(VECTOR_VMADH, scratch3.spec_index() as u32, scratch2.spec_index() as u32, scratch.spec_index() as u32, 9)]);
        emitted = emitted + seq![vector_word(VECTOR_VMADH, scratch3.spec_index() as u32, scratch2.spec_index() as u32, scratch.spec_index() as u32, 9)];
    }
    let ghost before = *assembler;
    assembler.write_vmadh(scratch3, scratch2, scratch, Element::_1);
    proof {
        lemma_emits_concat(start, before, *assembler, emitted, seq![vector_word(VECTOR_VMADH, scratch3.spec_index() as u32, scratch2.spec_index() as u32, scratch.spec_index() as u32, 9)]);
        emitted = emitted + seq![vector_word(VECTOR_VMADH, scratch3.spec_index() as u32, scratch2.spec_index() as u32, scratch.spec_index() as u32, 9)];
    }
    // Accumulator mid: multiply by 1 and add to the accumulator
    let ghost before = *assembler;
    assembler.write_vmadh(scratch3, scratch2, mid, Element::_2);
    proof {
        lemma_emits_concat(start, before, *assembler, emitted, seq![vector_word(VECTOR_VMADH, scratch3.spec_index() as u32, scratch2.spec_index() as u32, mid.spec_index() as u32, 10)]);
        emitted = emitted + seq![vector_word(VECTOR_VMADH, scratch3.spec_index() as u32, scratch2.spec_index() as u32, mid.spec_index() as u32, 10)];
    }
    // For low, VADDC with 0 sets just the low part
    let ghost before = *assembler;
    assembler.write_vaddc(scratch3, scratch2, low, Element::_0);
    proof {
        lemma_emits_concat(start, before, *assembler, emitted, seq![vector_word(VECTOR_VADDC, scratch3.spec_index() as u32, scratch2.spec_index() as u32, low.spec_index() as u32, 8)]);
        emitted = emitted + seq![vector_word(VECTOR_VADDC, scratch3.spec_index() as u32, scratch2.spec_index() as u32, low.spec_index() as u32, 8)];
    }
    proof {
        assert(emitted =~= set_accumulator_program(top, mid, low, scratch, scratch2, scratch3, scratch_gpr));
    }
}

} // verus!
