//! Verified core of the BMS low-voltage monitor: the CAN control frames,
//! the routing of decoded BMS messages to the displayed quantities, the
//! listening session that brackets the CAN traffic, the readings the
//! display keeps, and the layout of every drawn frame.
pub mod can_frame;
pub mod routing;
pub mod session;
pub mod readings;
pub mod layout;
