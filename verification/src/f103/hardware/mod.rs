//! Decisions of the board layer. The register accesses themselves belong to the
//! application.
pub mod peripherals;
