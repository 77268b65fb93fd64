//! Motion control and procedure execution for a two-axis slide stainer.
//!
//! The crate holds the decisions of the machine as verified code: the pulse
//! timing of a move, the bookkeeping of axis positions, the composite moves
//! (homing, moving to a position, moving to a jar) and the state machine that
//! runs a staining procedure. It performs no input or output itself. A driver
//! reads the pins, sleeps and talks to the document store, hands what it read
//! to the functions here and carries out what they answer.

pub mod structs_and_consts;
pub mod timing;
pub mod motion;
pub mod composite;
pub mod runs;
pub mod procedure;
pub mod couchdb;
pub mod graphql;
