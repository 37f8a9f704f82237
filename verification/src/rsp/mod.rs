pub mod dmem_writer;
pub mod rsp_assembler;
pub mod rsp_macros;
pub mod spmem;
pub mod spmem_writer;
pub mod rsp;
