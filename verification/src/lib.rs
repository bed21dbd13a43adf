//! Decision and text-building core of a car-sharing service: reservation
//! identifiers, query planning, payment and reservation workflows, and the
//! reservation calendar.

pub mod numtext;
pub mod text;
pub mod json;
pub mod ids;
pub mod car_query;
pub mod http;

pub mod create_reservation;
pub mod clock;
pub mod calendar;
pub mod cancel_unpaid;
pub mod return_car;
pub mod cancel_reservation;
pub mod payment;
pub mod add_car;
pub mod reservation_query;
pub mod accounts;
pub mod background;
pub mod cars;
