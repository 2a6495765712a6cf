//! Discrete core of an aqueous CO2/NaOH titration engine.
//!
//! The library keeps the ledger of a caustic solution being carbonated:
//! free NaOH, sodium carbonate, sodium bicarbonate and unreacted CO2,
//! each held as a whole number of a caller-chosen base unit of substance
//! (for example picomoles).  On that ledger it provides the staged
//! stoichiometry of a CO2 dose, the stoichiometric partition and dose
//! arithmetic of the titration planner, and the plateau clamps of the
//! planning-mode pH display.  Floating-point estimation (activity
//! coefficients, the Newton equilibrium solve, pH) lives outside the
//! library and hands its results in as scaled integers.

pub mod estimator;
pub mod ledger;
pub mod planner;
pub mod smoother;
