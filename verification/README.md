# n64_systemtest

The logic of a test suite that runs on the Nintendo 64, verified with Verus.

`src/` is the library. It holds what the suite computes, each function with a contract that
Verus proves:

- `assembler`, `rsp::rsp_assembler`, `rsp::rsp_macros`: MIPS and RSP instruction encoders and
  the RSP code writer;
- `cop0`, `mi`, `pi`: the bitfields of the VR4300's coprocessor 0 and of the MIPS and peripheral
  interfaces, and TLB entry words;
- `rsp::spmem`, `math::vector`: a model of the RSP's memory and of its 128 bit vectors;
- `rsp::rsp`, `graphics::vi`: the register stores that run the RSP and set up video, as values;
- `graphics`: colors, images, a bitmap font, the double-buffered framebuffers and the text
  console;
- `emux`, `isviewer`, `sc64`: the debug output channels (emulator extension instructions, the
  IS-Viewer, and the SummerCart64's USB protocol as a state machine).

`app/` is the program around it: it carries out the register stores, runs the instructions that
only exist on the console, and drives the output protocols.

`tests/` runs the library on concrete values.
