//! The constant table: named physical and thermodynamic constants, held as
//! exact rationals, plus the handful of constants derived arithmetically
//! from them.
//!
//! Units are documented per constant and not enforced by the types:
//! pressures in Pa, temperatures in K, molar masses in kg mol^-1, specific
//! heats in J kg^-1 K^-1, latent heats in J kg^-1, the gas constant in
//! J mol^-1 K^-1, and the gravitational acceleration in m s^-2.

use vstd::prelude::*;

use crate::rational::{Rat, frac_div, frac_mul, frac_sub, frac_eq};

verus! {

/// 101325 Pa.
pub open spec fn standard_pressure_frac() -> (int, int) {
    (101325, 1)
}

/// 273.15 K.
pub open spec fn standard_temperature_frac() -> (int, int) {
    (27315, 100)
}

/// 8.3144598 J mol^-1 K^-1, the universal gas constant.
pub open spec fn gas_constant_frac() -> (int, int) {
    (83144598, 10000000)
}

/// 0.028964 kg mol^-1.
pub open spec fn molar_mass_dry_air_frac() -> (int, int) {
    (28964, 1000000)
}

/// 0.01801528 kg mol^-1.
pub open spec fn molar_mass_water_frac() -> (int, int) {
    (1801528, 100000000)
}

/// 273.16 K.
pub open spec fn temperature_water_triple_point_frac() -> (int, int) {
    (27316, 100)
}

/// 611.657 Pa.
pub open spec fn water_triple_point_pressure_frac() -> (int, int) {
    (611657, 1000)
}

/// 2500800 J kg^-1.
pub open spec fn water_latent_heat_vaporization_reference_frac() -> (int, int) {
    (2500800, 1)
}

/// 2834400 J kg^-1.
pub open spec fn water_latent_heat_sublimation_reference_frac() -> (int, int) {
    (2834400, 1)
}

/// 0.28571428571, dimensionless.
pub open spec fn adiabatic_exponent_dry_air_frac() -> (int, int) {
    (28571428571, 100000000000)
}

/// 220 K.
pub open spec fn temperature_min_at_reference_frac() -> (int, int) {
    (220, 1)
}

/// 6864.8 J kg^-1 K^-1.
pub open spec fn entropy_dry_air_frac() -> (int, int) {
    (68648, 10)
}

/// 10513.6 J kg^-1 K^-1.
pub open spec fn entropy_water_vapor_frac() -> (int, int) {
    (105136, 10)
}

/// 298.15 K.
pub open spec fn entropy_reference_temperature_frac() -> (int, int) {
    (29815, 100)
}

/// 273.15 K.
pub open spec fn temperature_water_freeze_frac() -> (int, int) {
    (27315, 100)
}

/// 9.8067 m s^-2.
pub open spec fn gravitational_acceleration_frac() -> (int, int) {
    (98067, 10000)
}

/// 1 K.
pub open spec fn temperature_saturation_adjustment_min_frac() -> (int, int) {
    (1, 1)
}

/// 150 K.
pub open spec fn temperature_saturation_adjustment_init_min_frac() -> (int, int) {
    (150, 1)
}

/// 1000 K.
pub open spec fn temperature_saturation_adjustment_max_frac() -> (int, int) {
    (1000, 1)
}

/// 100000 Pa.
pub open spec fn potential_temperature_reference_pressure_frac() -> (int, int) {
    (100000, 1)
}

/// 1, dimensionless ice-nucleation exponent.
pub open spec fn pow_icenuc_frac() -> (int, int) {
    (1, 1)
}

/// 233 K.
pub open spec fn temperature_homogenous_nucleation_frac() -> (int, int) {
    (233, 1)
}

/// 273.16 K.
pub open spec fn thermodynamics_temperature_reference_frac() -> (int, int) {
    (27316, 100)
}

/// 2100 J kg^-1 K^-1.
pub open spec fn isobaric_specific_heat_ice_frac() -> (int, int) {
    (2100, 1)
}

/// 1859 J kg^-1 K^-1.
pub open spec fn isobaric_specific_heat_water_vapor_frac() -> (int, int) {
    (1859, 1)
}

/// 4181 J kg^-1 K^-1.
pub open spec fn isobaric_specific_heat_water_liquid_frac() -> (int, int) {
    (4181, 1)
}

/// 101325 Pa.
pub open spec fn mean_sea_level_pressure_frac() -> (int, int) {
    (101325, 1)
}

/// 290 K.
pub open spec fn temperature_mean_at_reference_frac() -> (int, int) {
    (290, 1)
}

/// Specific gas constant of dry air: gas constant over the molar mass of
/// dry air, J kg^-1 K^-1.
pub open spec fn r_d_frac() -> (int, int) {
    frac_div(gas_constant_frac(), molar_mass_dry_air_frac())
}

/// Specific gas constant of water vapor: gas constant over the molar mass
/// of water, J kg^-1 K^-1.
pub open spec fn r_v_frac() -> (int, int) {
    frac_div(gas_constant_frac(), molar_mass_water_frac())
}

/// Molar mass of dry air over the molar mass of water, dimensionless.
pub open spec fn dry_air_to_water_molar_mass_ratio_frac() -> (int, int) {
    frac_div(molar_mass_dry_air_frac(), molar_mass_water_frac())
}

/// Reference internal energy of water vapor at the triple point:
/// latent heat of vaporization minus the specific gas constant of water
/// vapor times the standard temperature, J kg^-1.
pub open spec fn e_internal_water_vapor_tp_frac() -> (int, int) {
    frac_sub(
        water_latent_heat_vaporization_reference_frac(),
        frac_mul(r_v_frac(), standard_temperature_frac()),
    )
}

/// Reference internal energy of solid water at the triple point:
/// latent heat of sublimation minus latent heat of vaporization, J kg^-1.
pub open spec fn e_internal_water_solid_tp_frac() -> (int, int) {
    frac_sub(
        water_latent_heat_sublimation_reference_frac(),
        water_latent_heat_vaporization_reference_frac(),
    )
}

pub fn standard_pressure() -> (r: Rat)
    ensures
        r.wf(),
        r@ == standard_pressure_frac(),
{
    Rat { num: 101325, den: 1 }
}

pub fn standard_temperature() -> (r: Rat)
    ensures
        r.wf(),
        r@ == standard_temperature_frac(),
{
    Rat { num: 27315, den: 100 }
}

pub fn gas_constant() -> (r: Rat)
    ensures
        r.wf(),
        r@ == gas_constant_frac(),
{
    Rat { num: 83144598, den: 10000000 }
}

pub fn molar_mass_dry_air() -> (r: Rat)
    ensures
        r.wf(),
        r@ == molar_mass_dry_air_frac(),
{
    Rat { num: 28964, den: 1000000 }
}

pub fn molar_mass_water() -> (r: Rat)
    ensures
        r.wf(),
        r@ == molar_mass_water_frac(),
{
    Rat { num: 1801528, den: 100000000 }
}

pub fn temperature_water_triple_point() -> (r: Rat)
    ensures
        r.wf(),
        r@ == temperature_water_triple_point_frac(),
{
    Rat { num: 27316, den: 100 }
}

pub fn water_triple_point_pressure() -> (r: Rat)
    ensures
        r.wf(),
        r@ == water_triple_point_pressure_frac(),
{
    Rat { num: 611657, den: 1000 }
}

pub fn water_latent_heat_vaporization_reference() -> (r: Rat)
    ensures
        r.wf(),
        r@ == water_latent_heat_vaporization_reference_frac(),
{
    Rat { num: 2500800, den: 1 }
}

pub fn water_latent_heat_sublimation_reference() -> (r: Rat)
    ensures
        r.wf(),
        r@ == water_latent_heat_sublimation_reference_frac(),
{
    Rat { num: 2834400, den: 1 }
}

pub fn adiabatic_exponent_dry_air() -> (r: Rat)
    ensures
        r.wf(),
        r@ == adiabatic_exponent_dry_air_frac(),
{
    Rat { num: 28571428571, den: 100000000000 }
}

pub fn temperature_min_at_reference() -> (r: Rat)
    ensures
        r.wf(),
        r@ == temperature_min_at_reference_frac(),
{
    Rat { num: 220, den: 1 }
}

pub fn entropy_dry_air() -> (r: Rat)
    ensures
        r.wf(),
        r@ == entropy_dry_air_frac(),
{
    Rat { num: 68648, den: 10 }
}

pub fn entropy_water_vapor() -> (r: Rat)
    ensures
        r.wf(),
        r@ == entropy_water_vapor_frac(),
{
    Rat { num: 105136, den: 10 }
}

pub fn entropy_reference_temperature() -> (r: Rat)
    ensures
        r.wf(),
        r@ == entropy_reference_temperature_frac(),
{
    Rat { num: 29815, den: 100 }
}

pub fn temperature_water_freeze() -> (r: Rat)
    ensures
        r.wf(),
        r@ == temperature_water_freeze_frac(),
{
    Rat { num: 27315, den: 100 }
}

pub fn gravitational_acceleration() -> (r: Rat)
    ensures
        r.wf(),
        r@ == gravitational_acceleration_frac(),
{
    Rat { num: 98067, den: 10000 }
}

pub fn temperature_saturation_adjustment_min() -> (r: Rat)
    ensures
        r.wf(),
        r@ == temperature_saturation_adjustment_min_frac(),
{
    Rat { num: 1, den: 1 }
}

pub fn temperature_saturation_adjustment_init_min() -> (r: Rat)
    ensures
        r.wf(),
        r@ == temperature_saturation_adjustment_init_min_frac(),
{
    Rat { num: 150, den: 1 }
}

pub fn temperature_saturation_adjustment_max() -> (r: Rat)
    ensures
        r.wf(),
        r@ == temperature_saturation_adjustment_max_frac(),
{
    Rat { num: 1000, den: 1 }
}

pub fn potential_temperature_reference_pressure() -> (r: Rat)
    ensures
        r.wf(),
        r@ == potential_temperature_reference_pressure_frac(),
{
    Rat { num: 100000, den: 1 }
}

pub fn pow_icenuc() -> (r: Rat)
    ensures
        r.wf(),
        r@ == pow_icenuc_frac(),
{
    Rat { num: 1, den: 1 }
}

pub fn temperature_homogenous_nucleation() -> (r: Rat)
    ensures
        r.wf(),
        r@ == temperature_homogenous_nucleation_frac(),
{
    Rat { num: 233, den: 1 }
}

pub fn thermodynamics_temperature_reference() -> (r: Rat)
    ensures
        r.wf(),
        r@ == thermodynamics_temperature_reference_frac(),
{
    Rat { num: 27316, den: 100 }
}

pub fn isobaric_specific_heat_ice() -> (r: Rat)
    ensures
        r.wf(),
        r@ == isobaric_specific_heat_ice_frac(),
{
    Rat { num: 2100, den: 1 }
}

pub fn isobaric_specific_heat_water_vapor() -> (r: Rat)
    ensures
        r.wf(),
        r@ == isobaric_specific_heat_water_vapor_frac(),
{
    Rat { num: 1859, den: 1 }
}

pub fn isobaric_specific_heat_water_liquid() -> (r: Rat)
    ensures
        r.wf(),
        r@ == isobaric_specific_heat_water_liquid_frac(),
{
    Rat { num: 4181, den: 1 }
}

pub fn mean_sea_level_pressure() -> (r: Rat)
    ensures
        r.wf(),
        r@ == mean_sea_level_pressure_frac(),
{
    Rat { num: 101325, den: 1 }
}

pub fn temperature_mean_at_reference() -> (r: Rat)
    ensures
        r.wf(),
        r@ == temperature_mean_at_reference_frac(),
{
    Rat { num: 290, den: 1 }
}

/// Specific gas constant of dry air, computed from the live base constants.
pub fn r_d() -> (r: Rat)
    ensures
        r.wf(),
        r@ == r_d_frac(),
{
    gas_constant().over(&molar_mass_dry_air())
}

/// Specific gas constant of water vapor, computed from the live base
/// constants.
pub fn r_v() -> (r: Rat)
    ensures
        r.wf(),
        r@ == r_v_frac(),
{
    gas_constant().over(&molar_mass_water())
}

/// Dry-air to water molar mass ratio, computed from the live base
/// constants.
pub fn dry_air_to_water_molar_mass_ratio() -> (r: Rat)
    ensures
        r.wf(),
        r@ == dry_air_to_water_molar_mass_ratio_frac(),
{
    molar_mass_dry_air().over(&molar_mass_water())
}

/// Reference internal energy of water vapor at the triple point, computed
/// from the live base constants rather than hard-coded.
pub fn e_internal_water_vapor_tp() -> (r: Rat)
    ensures
        r.wf(),
        r@ == e_internal_water_vapor_tp_frac(),
{
    water_latent_heat_vaporization_reference().minus(&r_v().times(&standard_temperature()))
}

/// Reference internal energy of solid water at the triple point, computed
/// from the live base constants rather than hard-coded.
pub fn e_internal_water_solid_tp() -> (r: Rat)
    ensures
        r.wf(),
        r@ == e_internal_water_solid_tp_frac(),
{
    water_latent_heat_sublimation_reference().minus(&water_latent_heat_vaporization_reference())
}

/// The two derived internal-energy references, recomputed from the base
/// constants through their defining formulas, have exactly these rational
/// values: a round-trip check tying the derived constants to an
/// independently stated number.
pub proof fn lemma_derived_constants_values()
    ensures
        frac_eq(e_internal_water_vapor_tp_frac(), (427815175296300int, 180152800int)),
        frac_eq(e_internal_water_solid_tp_frac(), (333600int, 1int)),
{
}

} // verus!
