use nilsinfinite_thermodynamics::rational::Rat;
use nilsinfinite_thermodynamics::thermodynamics::{
    ThermodynamicParameterSet, MoistAirPhasePartition, cp_m,
};
use nilsinfinite_thermodynamics::constants::{
    e_internal_water_vapor_tp, e_internal_water_solid_tp, r_v, standard_temperature,
    water_latent_heat_vaporization_reference, water_latent_heat_sublimation_reference,
    gas_constant, molar_mass_dry_air, molar_mass_water,
};

fn val(r: &Rat) -> f64 {
    r.num as f64 / r.den as f64
}

#[test]
fn lib_test_derived_parameters() {
    let params = ThermodynamicParameterSet::new();

    let expected_r_d = 287.061863; // J kg-1 K-1
    let expected_r_v = 461.522652; // J kg-1 K-1
    let expected_molar_mass_ratio = 1.60774; // Unitless

    let tolerance = 1e-3;

    assert!((val(&params.r_d()) - expected_r_d).abs() < tolerance);
    assert!((val(&params.r_v()) - expected_r_v).abs() < tolerance);
    assert!((val(&params.molmass_ratio()) - expected_molar_mass_ratio).abs() < tolerance);
}

#[test]
fn tests_test_derived_parameters() {
    let params = ThermodynamicParameterSet::new();

    let expected_r_d = 287.061863; // J kg-1 K-1
    let expected_r_v = 461.522652; // J kg-1 K-1
    let expected_molar_mass_ratio = 1.60774; // Unitless
    let expected_e_internal_solid_tp = 333600.0; // J kg-1
    // lh_v0 - r_v() * t_0 with t_0 = 273.16 K
    let expected_e_internal_vapor_tp = 2500800.0 - val(&params.r_v()) * val(&params.t_0);

    let tolerance = 1e-3;

    assert!((val(&params.r_d()) - expected_r_d).abs() < tolerance);
    assert!((val(&params.r_v()) - expected_r_v).abs() < tolerance);
    assert!((val(&params.molmass_ratio()) - expected_molar_mass_ratio).abs() < tolerance);
    assert!((val(&params.e_int_v0()) - expected_e_internal_vapor_tp).abs() < tolerance);
    assert!((val(&params.e_int_i0()) - expected_e_internal_solid_tp).abs() < tolerance);
}

#[test]
fn test_gas_constant_air() {
    let params = ThermodynamicParameterSet::new();
    let phase_partition = MoistAirPhasePartition::new(
        Rat::new(1, 10),
        Rat::new(2, 100),
        Rat::new(1, 100),
        Rat::new(0, 1),
        Rat::new(87, 100),
    );

    let ratio = val(&params.molmass_ratio());
    let expected_gas_constant =
        val(&params.r_d()) * (1.0 + (ratio - 1.0) * 0.1 - ratio * (0.02 + 0.01));
    let calculated_gas_constant = val(&params.gas_constant_air(&phase_partition));

    let tolerance = 1e-3;
    assert!((calculated_gas_constant - expected_gas_constant).abs() < tolerance);
}

#[test]
fn test_cp_m() {
    let params = ThermodynamicParameterSet::new();
    let phase_partition = MoistAirPhasePartition::new(
        Rat::new(1, 10),
        Rat::new(2, 100),
        Rat::new(1, 100),
        Rat::new(0, 1),
        Rat::new(87, 100),
    );

    let cp_d = val(&params.cp_d());
    let cp_v = val(&params.cp_v);
    let expected_cp_m = cp_d
        + (cp_v - cp_d) * val(&phase_partition.total)
        + (val(&params.cp_l) - cp_v) * val(&phase_partition.liquid)
        + (val(&params.cp_i) - cp_v) * val(&phase_partition.ice);

    let calculated_cp_m = val(&cp_m(&params, &phase_partition));

    let tolerance = 1e-3;
    assert!((calculated_cp_m - expected_cp_m).abs() < tolerance);
}

#[test]
fn test_construction_deterministic() {
    let a = ThermodynamicParameterSet::new();
    let b = ThermodynamicParameterSet::new();
    assert_eq!(a, b);
}

#[test]
fn test_latent_heat_of_fusion() {
    let params = ThermodynamicParameterSet::new();
    let f = params.lh_f0();
    assert_eq!(f.num, 2834400 - 2500800);
    assert_eq!(f.den, 1);
    assert_eq!(params.e_int_i0(), f);
}

#[test]
fn test_derived_constants_recomputed() {
    // Round trip: the table's derived internal-energy references match the
    // formulas recomputed from the base constants.
    let vap = e_internal_water_vapor_tp();
    let expected_vap = val(&water_latent_heat_vaporization_reference())
        - val(&r_v()) * val(&standard_temperature());
    assert!((val(&vap) - expected_vap).abs() < 1e-6);

    let solid = e_internal_water_solid_tp();
    let expected_solid = val(&water_latent_heat_sublimation_reference())
        - val(&water_latent_heat_vaporization_reference());
    assert!((val(&solid) - expected_solid).abs() < 1e-12);
}

#[test]
fn test_constant_table_values() {
    assert!((val(&gas_constant()) - 8.3144598).abs() < 1e-12);
    assert!((val(&molar_mass_dry_air()) - 0.028964).abs() < 1e-12);
    assert!((val(&molar_mass_water()) - 0.01801528).abs() < 1e-12);
}

#[test]
fn test_partition_field_order() {
    // Constructor argument order is total, vapor, liquid, reserved, ice.
    let p = MoistAirPhasePartition::new(
        Rat::new(1, 10),
        Rat::new(2, 100),
        Rat::new(1, 100),
        Rat::new(0, 1),
        Rat::new(87, 100),
    );
    assert_eq!(p.total, Rat::new(1, 10));
    assert_eq!(p.vapor, Rat::new(2, 100));
    assert_eq!(p.liquid, Rat::new(1, 100));
    assert_eq!(p.reserved, Rat::new(0, 1));
    assert_eq!(p.ice, Rat::new(87, 100));
}

#[test]
fn test_rational_ops() {
    let a = Rat::new(1, 2);
    let b = Rat::new(1, 3);
    let s = a.plus(&b);
    assert_eq!(s.num * 6, s.den * 5);
    let d = a.minus(&b);
    assert_eq!(d.num * 6, d.den);
    let m = a.times(&b);
    assert_eq!(m.num * 6, m.den);
    let q = a.over(&b);
    assert_eq!(q.num * 2, q.den * 3);
}

#[test]
fn test_gas_constant_air_dry_limit() {
    // An all-zero partition leaves exactly the dry-air gas constant.
    let params = ThermodynamicParameterSet::new();
    let dry = MoistAirPhasePartition::new(
        Rat::new(0, 1),
        Rat::new(0, 1),
        Rat::new(0, 1),
        Rat::new(0, 1),
        Rat::new(0, 1),
    );
    let r = params.gas_constant_air(&dry);
    assert!((val(&r) - val(&params.r_d())).abs() < 1e-9);
    let c = cp_m(&params, &dry);
    assert!((val(&c) - val(&params.cp_d())).abs() < 1e-9);
}

#[test]
fn test_isochoric_specific_heats() {
    let params = ThermodynamicParameterSet::new();
    let tolerance = 1e-3;
    assert!((val(&params.cp_d()) - val(&params.r_d()) / 0.28571428571).abs() < tolerance);
    assert!((val(&params.cv_d()) - (val(&params.cp_d()) - val(&params.r_d()))).abs() < tolerance);
    assert!((val(&params.cv_v()) - (1859.0 - val(&params.r_v()))).abs() < tolerance);
    assert_eq!(params.cv_l(), params.cp_l);
    assert_eq!(params.cv_i(), params.cp_i);
}
