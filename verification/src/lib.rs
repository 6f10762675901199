//! A pluggable blockchain consensus framework.
//!
//! The crate is organised in three layers:
//!
//! * a chain data model (`chain`): headers and blocks linked by a
//!   deterministic commitment function (`commit`), with pairwise and
//!   whole-chain verification;
//! * a consensus layer (`consensus`): a uniform `validate`/`seal` contract,
//!   concrete engines (`pow`, `poa`) and higher-order engines that wrap or
//!   combine other engines (`even_only`, `interleave`, `forking`);
//! * fork choice (`fork_choice`): rules that pick the best of several
//!   candidate chains.

pub mod chain;
pub mod commit;
pub mod consensus;
pub mod even_only;
pub mod fork_choice;
pub mod forking;
pub mod interleave;
pub mod poa;
pub mod pow;
