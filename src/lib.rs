//! The economy core of an idle clicker game: exact decimal amounts,
//! generators, upgrades with geometric cost curves, and the resource
//! manager that accrues and spends the balance.

pub mod amount;
pub mod clock;
pub mod detail;
pub mod economy;
pub mod error;
pub mod generator;
pub mod upgrade;
