//! The thermodynamic parameter set, the moist-air phase partition, and the
//! derivation functions built on them.
//!
//! A `ThermodynamicParameterSet` is an immutable aggregate of named
//! constants, always built by `new` from the fixed defaults of the constant
//! table; `wf` says exactly that. Every derivation method states its result
//! as an exact rational identity over the fields, so the formulas hold as
//! mathematical equalities, not up to rounding.

use vstd::prelude::*;

use crate::rational::{
    Rat, frac_add, frac_sub, frac_mul, frac_div, frac_eq,
    lemma_pos_mul_pos, lemma_mul_bound, lemma_mul_distrib, lemma_mul_distrib_sub, lemma_mul_sub, lemma_frac_eq_trans,
    lemma_frac_add_cong, lemma_frac_sub_cong, lemma_frac_mul_cong,
};
use crate::constants::{
    thermodynamics_temperature_reference, mean_sea_level_pressure,
    potential_temperature_reference_pressure, isobaric_specific_heat_water_vapor,
    isobaric_specific_heat_water_liquid, isobaric_specific_heat_ice,
    water_latent_heat_vaporization_reference, water_latent_heat_sublimation_reference,
    water_triple_point_pressure, temperature_water_triple_point,
    temperature_water_freeze, temperature_saturation_adjustment_min,
    temperature_saturation_adjustment_max, temperature_saturation_adjustment_init_min,
    entropy_reference_temperature, entropy_dry_air, entropy_water_vapor,
    adiabatic_exponent_dry_air, gas_constant, molar_mass_dry_air, molar_mass_water,
    temperature_mean_at_reference, temperature_min_at_reference,
    gravitational_acceleration, temperature_homogenous_nucleation, pow_icenuc,
};

verus! {

/// The immutable aggregate of thermodynamic constants.
///
/// Units: temperatures in K, pressures in Pa, specific heats and entropy
/// references in J kg^-1 K^-1, latent heats in J kg^-1, molar masses in
/// kg mol^-1, the universal gas constant in J mol^-1 K^-1, gravitational
/// acceleration in m s^-2; `kappa_d` and `pow_icenuc` are dimensionless.
#[derive(Clone, Copy, Debug, PartialEq, Eq, Structural)]
#[verifier::ext_equal]
pub struct ThermodynamicParameterSet {
    pub t_0: Rat,
    pub mslp: Rat,
    pub p_ref_theta: Rat,
    pub cp_v: Rat,
    pub cp_l: Rat,
    pub cp_i: Rat,
    pub lh_v0: Rat,
    pub lh_s0: Rat,
    pub press_triple: Rat,
    pub t_triple: Rat,
    pub t_freeze: Rat,
    pub t_min: Rat,
    pub t_max: Rat,
    pub t_init_min: Rat,
    pub entropy_reference_temperature: Rat,
    pub entropy_dry_air: Rat,
    pub entropy_water_vapor: Rat,
    pub kappa_d: Rat,
    pub gas_constant: Rat,
    pub molmass_dryair: Rat,
    pub molmass_water: Rat,
    pub t_surf_ref: Rat,
    pub t_min_ref: Rat,
    pub grav: Rat,
    pub t_icenuc: Rat,
    pub pow_icenuc: Rat,
}

impl ThermodynamicParameterSet {
    /// The fixed default values, one per field, as exact rationals.
    pub open spec fn spec_default() -> ThermodynamicParameterSet {
        ThermodynamicParameterSet {
            t_0: Rat { num: 27316, den: 100 },
            mslp: Rat { num: 101325, den: 1 },
            p_ref_theta: Rat { num: 100000, den: 1 },
            cp_v: Rat { num: 1859, den: 1 },
            cp_l: Rat { num: 4181, den: 1 },
            cp_i: Rat { num: 2100, den: 1 },
            lh_v0: Rat { num: 2500800, den: 1 },
            lh_s0: Rat { num: 2834400, den: 1 },
            press_triple: Rat { num: 611657, den: 1000 },
            t_triple: Rat { num: 27316, den: 100 },
            t_freeze: Rat { num: 27315, den: 100 },
            t_min: Rat { num: 1, den: 1 },
            t_max: Rat { num: 1000, den: 1 },
            t_init_min: Rat { num: 150, den: 1 },
            entropy_reference_temperature: Rat { num: 29815, den: 100 },
            entropy_dry_air: Rat { num: 68648, den: 10 },
            entropy_water_vapor: Rat { num: 105136, den: 10 },
            kappa_d: Rat { num: 28571428571, den: 100000000000 },
            gas_constant: Rat { num: 83144598, den: 10000000 },
            molmass_dryair: Rat { num: 28964, den: 1000000 },
            molmass_water: Rat { num: 1801528, den: 100000000 },
            t_surf_ref: Rat { num: 290, den: 1 },
            t_min_ref: Rat { num: 220, den: 1 },
            grav: Rat { num: 98067, den: 10000 },
            t_icenuc: Rat { num: 233, den: 1 },
            pow_icenuc: Rat { num: 1, den: 1 },
        }
    }

    /// A parameter set is well formed exactly when it carries the fixed
    /// defaults: the only constructor is `new`, which never takes inputs.
    pub open spec fn wf(self) -> bool {
        self == ThermodynamicParameterSet::spec_default()
    }

    /// Builds the parameter set from the constant table's fixed defaults.
    pub fn new() -> (r: ThermodynamicParameterSet)
        ensures
            r.wf(),
    {
        let r = ThermodynamicParameterSet {
            t_0: thermodynamics_temperature_reference(),
            mslp: mean_sea_level_pressure(),
            p_ref_theta: potential_temperature_reference_pressure(),
            cp_v: isobaric_specific_heat_water_vapor(),
            cp_l: isobaric_specific_heat_water_liquid(),
            cp_i: isobaric_specific_heat_ice(),
            lh_v0: water_latent_heat_vaporization_reference(),
            lh_s0: water_latent_heat_sublimation_reference(),
            press_triple: water_triple_point_pressure(),
            t_triple: temperature_water_triple_point(),
            t_freeze: temperature_water_freeze(),
            t_min: temperature_saturation_adjustment_min(),
            t_max: temperature_saturation_adjustment_max(),
            t_init_min: temperature_saturation_adjustment_init_min(),
            entropy_reference_temperature: entropy_reference_temperature(),
            entropy_dry_air: entropy_dry_air(),
            entropy_water_vapor: entropy_water_vapor(),
            kappa_d: adiabatic_exponent_dry_air(),
            gas_constant: gas_constant(),
            molmass_dryair: molar_mass_dry_air(),
            molmass_water: molar_mass_water(),
            t_surf_ref: temperature_mean_at_reference(),
            t_min_ref: temperature_min_at_reference(),
            grav: gravitational_acceleration(),
            t_icenuc: temperature_homogenous_nucleation(),
            pow_icenuc: pow_icenuc(),
        };
        proof {
            assert(r =~= ThermodynamicParameterSet::spec_default());
        }
        r
    }

    /// Specific gas constant of dry air: gas constant over the molar mass
    /// of dry air.
    pub open spec fn r_d_frac(self) -> (int, int) {
        frac_div(self.gas_constant@, self.molmass_dryair@)
    }

    /// Specific gas constant of water vapor: gas constant over the molar
    /// mass of water.
    pub open spec fn r_v_frac(self) -> (int, int) {
        frac_div(self.gas_constant@, self.molmass_water@)
    }

    /// Molar mass of dry air over the molar mass of water.
    pub open spec fn molmass_ratio_frac(self) -> (int, int) {
        frac_div(self.molmass_dryair@, self.molmass_water@)
    }

    /// Latent heat of fusion at reference: sublimation minus vaporization.
    pub open spec fn lh_f0_frac(self) -> (int, int) {
        frac_sub(self.lh_s0@, self.lh_v0@)
    }

    /// Reference internal energy of water vapor.
    pub open spec fn e_int_v0_frac(self) -> (int, int) {
        frac_sub(self.lh_v0@, frac_mul(self.r_v_frac(), self.t_0@))
    }

    /// Reference internal energy of ice (fusion-only approximation).
    pub open spec fn e_int_i0_frac(self) -> (int, int) {
        self.lh_f0_frac()
    }

    /// Isobaric specific heat of dry air.
    pub open spec fn cp_d_frac(self) -> (int, int) {
        frac_div(self.r_d_frac(), self.kappa_d@)
    }

    /// Isochoric specific heat of dry air.
    pub open spec fn cv_d_frac(self) -> (int, int) {
        frac_sub(self.cp_d_frac(), self.r_d_frac())
    }

    /// Isochoric specific heat of water vapor.
    pub open spec fn cv_v_frac(self) -> (int, int) {
        frac_sub(self.cp_v@, self.r_v_frac())
    }

    /// Isochoric specific heat of liquid water.
    pub open spec fn cv_l_frac(self) -> (int, int) {
        self.cp_l@
    }

    /// Isochoric specific heat of ice.
    pub open spec fn cv_i_frac(self) -> (int, int) {
        self.cp_i@
    }

    /// Specific gas constant of dry air, `gas_constant / molmass_dryair`,
    /// in lowest terms.
    pub fn r_d(&self) -> (r: Rat)
        requires
            self.wf(),
        ensures
            r.wf(),
            frac_eq(r@, self.r_d_frac()),
            r@ == (41572299int, 144820int),
    {
        let r = Rat { num: 41572299, den: 144820 };
        proof {
            assert(r@.0 * (self.gas_constant@.1 * self.molmass_dryair@.0)
                == (self.gas_constant@.0 * self.molmass_dryair@.1) * r@.1) by (nonlinear_arith)
                requires
                    r@.0 == 41572299int,
                    r@.1 == 144820int,
                    self.gas_constant@ == (83144598int, 10000000int),
                    self.molmass_dryair@ == (28964int, 1000000int),
            ;
        }
        r
    }

    /// Specific gas constant of water vapor, `gas_constant / molmass_water`,
    /// in lowest terms.
    pub fn r_v(&self) -> (r: Rat)
        requires
            self.wf(),
        ensures
            r.wf(),
            frac_eq(r@, self.r_v_frac()),
            r@ == (207861495int, 450382int),
    {
        let r = Rat { num: 207861495, den: 450382 };
        proof {
            assert(r@.0 * (self.gas_constant@.1 * self.molmass_water@.0)
                == (self.gas_constant@.0 * self.molmass_water@.1) * r@.1) by (nonlinear_arith)
                requires
                    r@.0 == 207861495int,
                    r@.1 == 450382int,
                    self.gas_constant@ == (83144598int, 10000000int),
                    self.molmass_water@ == (1801528int, 100000000int),
            ;
        }
        r
    }

    /// Dry-air to water molar mass ratio, `molmass_dryair / molmass_water`,
    /// in lowest terms.
    pub fn molmass_ratio(&self) -> (r: Rat)
        requires
            self.wf(),
        ensures
            r.wf(),
            frac_eq(r@, self.molmass_ratio_frac()),
            r@ == (362050int, 225191int),
    {
        let r = Rat { num: 362050, den: 225191 };
        proof {
            assert(r@.0 * (self.molmass_dryair@.1 * self.molmass_water@.0)
                == (self.molmass_dryair@.0 * self.molmass_water@.1) * r@.1) by (nonlinear_arith)
                requires
                    r@.0 == 362050int,
                    r@.1 == 225191int,
                    self.molmass_dryair@ == (28964int, 1000000int),
                    self.molmass_water@ == (1801528int, 100000000int),
            ;
        }
        r
    }

    /// Latent heat of fusion at reference, `lh_s0 - lh_v0`.
    pub fn lh_f0(&self) -> (r: Rat)
        requires
            self.wf(),
        ensures
            r.wf(),
            frac_eq(r@, self.lh_f0_frac()),
            r@ == (333600int, 1int),
    {
        self.lh_s0.minus(&self.lh_v0)
    }

    /// Reference internal energy of water vapor, `lh_v0 - r_v() * t_0`.
    pub fn e_int_v0(&self) -> (r: Rat)
        requires
            self.wf(),
        ensures
            r.wf(),
            frac_eq(r@, self.e_int_v0_frac()),
    {
        let v = self.r_v();
        proof {
            lemma_mul_bound(v.num as int, self.t_0.num as int, 207861495int, 27316int);
            lemma_mul_bound(v.den as int, self.t_0.den as int, 450382int, 100int);
        }
        let t = v.times(&self.t_0);
        proof {
            lemma_mul_bound(self.lh_v0.num as int, t.den as int, 2500800int, 450382int * 100int);
            lemma_mul_bound(t.num as int, self.lh_v0.den as int, 207861495int * 27316int, 1int);
            lemma_mul_bound(self.lh_v0.den as int, t.den as int, 1int, 450382int * 100int);
            lemma_frac_mul_cong(v@, self.r_v_frac(), self.t_0@, self.t_0@);
            lemma_frac_sub_cong(
                self.lh_v0@,
                self.lh_v0@,
                t@,
                frac_mul(self.r_v_frac(), self.t_0@),
            );
        }
        self.lh_v0.minus(&t)
    }

    /// Reference internal energy of ice: exactly the latent heat of fusion.
    pub fn e_int_i0(&self) -> (r: Rat)
        requires
            self.wf(),
        ensures
            r.wf(),
            frac_eq(r@, self.e_int_i0_frac()),
            r@ == (333600int, 1int),
    {
        self.lh_f0()
    }

    /// Isobaric specific heat of dry air, `r_d() / kappa_d`, in lowest
    /// terms.
    pub fn cp_d(&self) -> (r: Rat)
        requires
            self.wf(),
        ensures
            r.wf(),
            frac_eq(r@, self.cp_d_frac()),
            r@ == (207861495000000000int, 206885714282611int),
    {
        let r = Rat { num: 207861495000000000, den: 206885714282611 };
        proof {
            assert(r@.0 * ((self.gas_constant@.1 * self.molmass_dryair@.0) * self.kappa_d@.0)
                == ((self.gas_constant@.0 * self.molmass_dryair@.1) * self.kappa_d@.1) * r@.1)
                by (nonlinear_arith)
                requires
                    r@.0 == 207861495000000000int,
                    r@.1 == 206885714282611int,
                    self.gas_constant@ == (83144598int, 10000000int),
                    self.molmass_dryair@ == (28964int, 1000000int),
                    self.kappa_d@ == (28571428571int, 100000000000int),
            ;
        }
        r
    }

    /// Isochoric specific heat of dry air, `cp_d() - r_d()`.
    pub fn cv_d(&self) -> (r: Rat)
        requires
            self.wf(),
        ensures
            r.wf(),
            frac_eq(r@, self.cv_d_frac()),
    {
        let c = self.cp_d();
        let d = self.r_d();
        proof {
            lemma_mul_bound(c.num as int, d.den as int, 207861495000000000int, 144820int);
            lemma_mul_bound(d.num as int, c.den as int, 41572299int, 206885714282611int);
            lemma_mul_bound(c.den as int, d.den as int, 206885714282611int, 144820int);
            lemma_frac_sub_cong(c@, self.cp_d_frac(), d@, self.r_d_frac());
        }
        c.minus(&d)
    }

    /// Isochoric specific heat of water vapor, `cp_v - r_v()`.
    pub fn cv_v(&self) -> (r: Rat)
        requires
            self.wf(),
        ensures
            r.wf(),
            frac_eq(r@, self.cv_v_frac()),
    {
        let v = self.r_v();
        proof {
            lemma_mul_bound(self.cp_v.num as int, v.den as int, 1859int, 450382int);
            lemma_mul_bound(v.num as int, self.cp_v.den as int, 207861495int, 1int);
            lemma_mul_bound(self.cp_v.den as int, v.den as int, 1int, 450382int);
            lemma_frac_sub_cong(self.cp_v@, self.cp_v@, v@, self.r_v_frac());
        }
        self.cp_v.minus(&v)
    }

    /// Isochoric specific heat of liquid water: equal to `cp_l` for an
    /// incompressible liquid.
    pub fn cv_l(&self) -> (r: Rat)
        requires
            self.wf(),
        ensures
            r.wf(),
            frac_eq(r@, self.cv_l_frac()),
            r@ == self.cp_l@,
    {
        self.cp_l
    }

    /// Isochoric specific heat of ice: equal to `cp_i` for an
    /// incompressible solid.
    pub fn cv_i(&self) -> (r: Rat)
        requires
            self.wf(),
        ensures
            r.wf(),
            frac_eq(r@, self.cv_i_frac()),
            r@ == self.cp_i@,
    {
        self.cp_i
    }
}

/// A four-way split of total water substance: total, vapor, liquid and ice
/// specific contents (mass fractions), plus a reserved slot that no mixture
/// formula reads. Values are stored verbatim: the physically intended
/// relation `vapor + liquid + ice <= total` is a documented precondition of
/// meaningful use, not enforced here.
#[derive(Clone, Copy, Debug, PartialEq, Eq, Structural)]
#[verifier::ext_equal]
pub struct MoistAirPhasePartition {
    pub total: Rat,
    pub vapor: Rat,
    pub liquid: Rat,
    pub reserved: Rat,
    pub ice: Rat,
}

impl MoistAirPhasePartition {
    /// Every field is a well-formed rational whose components lie within
    /// 10^4 (the machine limit under which the mixture formulas are proved
    /// free of `i128` overflow).
    pub open spec fn wf(self) -> bool {
        &&& self.total.wf() && self.total.bounded()
        &&& self.vapor.wf() && self.vapor.bounded()
        &&& self.liquid.wf() && self.liquid.bounded()
        &&& self.reserved.wf() && self.reserved.bounded()
        &&& self.ice.wf() && self.ice.bounded()
    }

    /// Stores the five specific contents verbatim, in the order
    /// total, vapor, liquid, reserved, ice.
    pub fn new(total: Rat, vapor: Rat, liquid: Rat, reserved: Rat, ice: Rat) -> (r:
        MoistAirPhasePartition)
        requires
            total.wf() && total.bounded(),
            vapor.wf() && vapor.bounded(),
            liquid.wf() && liquid.bounded(),
            reserved.wf() && reserved.bounded(),
            ice.wf() && ice.bounded(),
        ensures
            r.wf(),
            r.total == total,
            r.vapor == vapor,
            r.liquid == liquid,
            r.reserved == reserved,
            r.ice == ice,
    {
        MoistAirPhasePartition { total, vapor, liquid, reserved, ice }
    }
}

impl ThermodynamicParameterSet {
    /// Mixture specific gas constant:
    /// `r_d * (1 + (molmass_ratio - 1) * total - molmass_ratio * (vapor + liquid))`,
    /// reading the partition fields in constructor order: the total water
    /// content raises the mixture gas constant through the molar-mass
    /// ratio, the vapor and liquid slots enter as the condensate
    /// correction.
    pub open spec fn gas_constant_air_frac(self, pp: MoistAirPhasePartition) -> (int, int) {
        frac_mul(
            self.r_d_frac(),
            frac_sub(
                frac_add(
                    (1int, 1int),
                    frac_mul(frac_sub(self.molmass_ratio_frac(), (1int, 1int)), pp.total@),
                ),
                frac_mul(self.molmass_ratio_frac(), frac_add(pp.vapor@, pp.liquid@)),
            ),
        )
    }

    /// Effective specific gas constant of moist air; the reserved and ice
    /// fields are not read.
    pub fn gas_constant_air(&self, partition: &MoistAirPhasePartition) -> (r: Rat)
        requires
            self.wf(),
            partition.wf(),
        ensures
            r.wf(),
            frac_eq(r@, self.gas_constant_air_frac(*partition)),
    {
        let one = Rat::one();
        let ratio = self.molmass_ratio();
        let rd = self.r_d();
        proof {
            lemma_mul_bound(ratio.num as int, one.den as int, 362050int, 1int);
            lemma_mul_bound(one.num as int, ratio.den as int, 1int, 225191int);
            lemma_mul_bound(ratio.den as int, one.den as int, 225191int, 1int);
        }
        let t1 = ratio.minus(&one);
        proof {
            lemma_mul_bound(t1.num as int, partition.total.num as int, 1000000int, 10000int);
            lemma_mul_bound(t1.den as int, partition.total.den as int, 300000int, 10000int);
        }
        let t2 = t1.times(&partition.total);
        proof {
            lemma_mul_bound(one.num as int, t2.den as int, 1int, 3000000000int);
            lemma_mul_bound(t2.num as int, one.den as int, 10000000000int, 1int);
            lemma_mul_bound(one.den as int, t2.den as int, 1int, 3000000000int);
        }
        let s1 = one.plus(&t2);
        proof {
            lemma_mul_bound(
                partition.vapor.num as int,
                partition.liquid.den as int,
                10000int,
                10000int,
            );
            lemma_mul_bound(
                partition.liquid.num as int,
                partition.vapor.den as int,
                10000int,
                10000int,
            );
            lemma_mul_bound(
                partition.vapor.den as int,
                partition.liquid.den as int,
                10000int,
                10000int,
            );
        }
        let cond = partition.vapor.plus(&partition.liquid);
        proof {
            lemma_mul_bound(ratio.num as int, cond.num as int, 362050int, 200000000int);
            lemma_mul_bound(ratio.den as int, cond.den as int, 225191int, 100000000int);
        }
        let t3 = ratio.times(&cond);
        proof {
            lemma_mul_bound(s1.num as int, t3.den as int, 20000000000int, 30000000000000int);
            lemma_mul_bound(t3.num as int, s1.den as int, 100000000000000int, 3000000000int);
            lemma_mul_bound(s1.den as int, t3.den as int, 3000000000int, 30000000000000int);
        }
        let s2 = s1.minus(&t3);
        proof {
            lemma_mul_bound(
                rd.num as int,
                s2.num as int,
                41572299int,
                1000000000000000000000000int,
            );
            lemma_mul_bound(
                rd.den as int,
                s2.den as int,
                144820int,
                100000000000000000000000int,
            );
            lemma_frac_sub_cong(ratio@, self.molmass_ratio_frac(), one@, (1int, 1int));
            lemma_frac_mul_cong(
                t1@,
                frac_sub(self.molmass_ratio_frac(), (1int, 1int)),
                partition.total@,
                partition.total@,
            );
            lemma_frac_add_cong(
                one@,
                (1int, 1int),
                t2@,
                frac_mul(frac_sub(self.molmass_ratio_frac(), (1int, 1int)), partition.total@),
            );
            lemma_frac_mul_cong(ratio@, self.molmass_ratio_frac(), cond@, cond@);
            lemma_frac_sub_cong(
                s1@,
                frac_add(
                    (1int, 1int),
                    frac_mul(frac_sub(self.molmass_ratio_frac(), (1int, 1int)), partition.total@),
                ),
                t3@,
                frac_mul(self.molmass_ratio_frac(), frac_add(partition.vapor@, partition.liquid@)),
            );
            lemma_frac_mul_cong(
                rd@,
                self.r_d_frac(),
                s2@,
                frac_sub(
                    frac_add(
                        (1int, 1int),
                        frac_mul(
                            frac_sub(self.molmass_ratio_frac(), (1int, 1int)),
                            partition.total@,
                        ),
                    ),
                    frac_mul(
                        self.molmass_ratio_frac(),
                        frac_add(partition.vapor@, partition.liquid@),
                    ),
                ),
            );
        }
        rd.times(&s2)
    }
}

/// Effective isobaric specific heat of the moist-air mixture:
/// `cp_d + (cp_v - cp_d) * total + (cp_l - cp_v) * liquid + (cp_i - cp_v) * ice`.
pub open spec fn cp_m_frac(ps: ThermodynamicParameterSet, pp: MoistAirPhasePartition) -> (
    int,
    int,
) {
    frac_add(
        frac_add(
            frac_add(
                ps.cp_d_frac(),
                frac_mul(frac_sub(ps.cp_v@, ps.cp_d_frac()), pp.total@),
            ),
            frac_mul(frac_sub(ps.cp_l@, ps.cp_v@), pp.liquid@),
        ),
        frac_mul(frac_sub(ps.cp_i@, ps.cp_v@), pp.ice@),
    )
}

/// The mixing rule `c + (v - c) * t` can be evaluated as
/// `c * (1 - t) + v * t`: both orderings denote the same rational.
/// One side of the mixing-rule rearrangement, as a plain integer identity.
proof fn lemma_head_left(p: int, q: int, s: int, x: int, y: int)
    ensures
        ((p * (1int * y - x * 1int)) * (q * y)) * s
            == (p * ((q * s) * y)) * (1int * y) - ((p * q) * s) * (x * y),
{
    let d: int = 1int * y - x * 1int;
    assert(((p * d) * (q * y)) * s == ((p * q) * s) * (d * y)) by (nonlinear_arith);
    lemma_mul_distrib_sub(1int * y, x * 1int, y);
    lemma_mul_sub((p * q) * s, (1int * y) * y, (x * 1int) * y);
    assert(((p * q) * s) * ((1int * y) * y) == (p * ((q * s) * y)) * (1int * y))
        by (nonlinear_arith);
    assert(((p * q) * s) * ((x * 1int) * y) == ((p * q) * s) * (x * y)) by (nonlinear_arith);
}

/// The other side of the mixing-rule rearrangement.
proof fn lemma_head_right(p: int, x: int, s: int, y: int, a: int, q: int)
    ensures
        ((p * x) * (s * (1int * y))) * s
            == (((p * s - a * q) * x) * s) * (1int * y) + ((a * q) * s) * (x * y),
{
    lemma_mul_distrib_sub(p * s, a * q, x);
    lemma_mul_distrib_sub((p * s) * x, (a * q) * x, s);
    lemma_mul_distrib_sub(((p * s) * x) * s, ((a * q) * x) * s, 1int * y);
    assert(((p * x) * (s * (1int * y))) * s == (((p * s) * x) * s) * (1int * y))
        by (nonlinear_arith);
    assert((((a * q) * x) * s) * (1int * y) == ((a * q) * s) * (x * y)) by (nonlinear_arith);
}

#[verifier::rlimit(40)]
proof fn lemma_mix_head(c: (int, int), v: (int, int), t: (int, int))
    requires
        c.1 > 0,
        t.1 > 0,
    ensures
        frac_eq(
            frac_add(frac_mul(c, frac_sub((1int, 1int), t)), frac_mul(v, t)),
            frac_add(c, frac_mul(frac_sub(v, c), t)),
        ),
{
    let h20: int = (c.0 * (1int * t.1 - t.0 * 1int)) * (v.1 * t.1) + (v.0 * t.0) * (c.1 * (1int
        * t.1));
    let h21: int = (c.1 * (1int * t.1)) * (v.1 * t.1);
    let h10: int = c.0 * ((v.1 * c.1) * t.1) + ((v.0 * c.1 - c.0 * v.1) * t.0) * c.1;
    let h11: int = c.1 * ((v.1 * c.1) * t.1);
    assert(((c.1 * (1int * t.1)) * (v.1 * t.1)) * c.1 == (c.1 * ((v.1 * c.1) * t.1)) * (1int
        * t.1)) by (nonlinear_arith);
    lemma_head_left(c.0, v.1, c.1, t.0, t.1);
    lemma_head_right(v.0, t.0, c.1, t.1, c.0, v.1);
    lemma_mul_distrib(
        (c.0 * (1int * t.1 - t.0 * 1int)) * (v.1 * t.1),
        (v.0 * t.0) * (c.1 * (1int * t.1)),
        c.1,
    );
    lemma_mul_distrib(
        c.0 * ((v.1 * c.1) * t.1),
        ((v.0 * c.1 - c.0 * v.1) * t.0) * c.1,
        1int * t.1,
    );
    assert(h20 * h11 == h10 * h21) by (nonlinear_arith)
        requires
            h20 * c.1 == h10 * (1int * t.1),
            h21 * c.1 == h11 * (1int * t.1),
            c.1 > 0,
            1int * t.1 > 0,
    ;
}

/// Effective isobaric specific heat of moist air: starts from dry air, adds
/// the vapor contribution weighted by total water content, then corrects
/// for the liquid and ice portions; the reserved field is not read.
pub fn cp_m(params: &ThermodynamicParameterSet, partition: &MoistAirPhasePartition) -> (r: Rat)
    requires
        params.wf(),
        partition.wf(),
    ensures
        r.wf(),
        frac_eq(r@, cp_m_frac(*params, *partition)),
{
    let c = params.cp_d();
    let one = Rat::one();
    proof {
        lemma_mul_bound(one.num as int, partition.total.den as int, 1int, 10000int);
        lemma_mul_bound(partition.total.num as int, one.den as int, 10000int, 1int);
        lemma_mul_bound(one.den as int, partition.total.den as int, 1int, 10000int);
    }
    let omt = one.minus(&partition.total);
    proof {
        lemma_mul_bound(c.num as int, omt.num as int, 207861495000000000int, 20000int);
        lemma_mul_bound(c.den as int, omt.den as int, 206885714282611int, 10000int);
    }
    let h2a = c.times(&omt);
    proof {
        lemma_mul_bound(params.cp_v.num as int, partition.total.num as int, 1859int, 10000int);
        lemma_mul_bound(params.cp_v.den as int, partition.total.den as int, 1int, 10000int);
    }
    let h2b = params.cp_v.times(&partition.total);
    proof {
        lemma_mul_bound(
            h2a.num as int,
            h2b.den as int,
            5000000000000000000000int,
            10000int,
        );
        lemma_mul_bound(
            h2b.num as int,
            h2a.den as int,
            20000000int,
            3000000000000000000int,
        );
        lemma_mul_bound(
            h2a.den as int,
            h2b.den as int,
            3000000000000000000int,
            10000int,
        );
    }
    let h2 = h2a.plus(&h2b);
    proof {
        lemma_mul_bound(params.cp_l.num as int, params.cp_v.den as int, 4181int, 1int);
        lemma_mul_bound(params.cp_v.num as int, params.cp_l.den as int, 1859int, 1int);
        lemma_mul_bound(params.cp_l.den as int, params.cp_v.den as int, 1int, 1int);
    }
    let d3 = params.cp_l.minus(&params.cp_v);
    proof {
        lemma_mul_bound(d3.num as int, partition.liquid.num as int, 10000int, 10000int);
        lemma_mul_bound(d3.den as int, partition.liquid.den as int, 1int, 10000int);
    }
    let t3 = d3.times(&partition.liquid);
    proof {
        lemma_mul_bound(
            h2.num as int,
            t3.den as int,
            200000000000000000000000000int,
            10000int,
        );
        lemma_mul_bound(
            t3.num as int,
            h2.den as int,
            100000000int,
            30000000000000000000000int,
        );
        lemma_mul_bound(
            h2.den as int,
            t3.den as int,
            30000000000000000000000int,
            10000int,
        );
    }
    let s3 = h2.plus(&t3);
    proof {
        lemma_mul_bound(params.cp_i.num as int, params.cp_v.den as int, 2100int, 1int);
        lemma_mul_bound(params.cp_v.num as int, params.cp_i.den as int, 1859int, 1int);
        lemma_mul_bound(params.cp_i.den as int, params.cp_v.den as int, 1int, 1int);
    }
    let d4 = params.cp_i.minus(&params.cp_v);
    proof {
        lemma_mul_bound(d4.num as int, partition.ice.num as int, 10000int, 10000int);
        lemma_mul_bound(d4.den as int, partition.ice.den as int, 1int, 10000int);
    }
    let t4 = d4.times(&partition.ice);
    proof {
        lemma_mul_bound(
            s3.num as int,
            t4.den as int,
            10000000000000000000000000000000int,
            10000int,
        );
        lemma_mul_bound(
            t4.num as int,
            s3.den as int,
            100000000int,
            300000000000000000000000000int,
        );
        lemma_mul_bound(
            s3.den as int,
            t4.den as int,
            300000000000000000000000000int,
            10000int,
        );
        lemma_mix_head(c@, params.cp_v@, partition.total@);
        lemma_frac_sub_cong(params.cp_v@, params.cp_v@, c@, params.cp_d_frac());
        lemma_frac_mul_cong(
            frac_sub(params.cp_v@, c@),
            frac_sub(params.cp_v@, params.cp_d_frac()),
            partition.total@,
            partition.total@,
        );
        lemma_frac_add_cong(
            c@,
            params.cp_d_frac(),
            frac_mul(frac_sub(params.cp_v@, c@), partition.total@),
            frac_mul(frac_sub(params.cp_v@, params.cp_d_frac()), partition.total@),
        );
        lemma_pos_mul_pos(params.cp_v@.1, c@.1);
        lemma_pos_mul_pos(params.cp_v@.1 * c@.1, partition.total@.1);
        lemma_pos_mul_pos(c@.1, (params.cp_v@.1 * c@.1) * partition.total@.1);
        lemma_frac_eq_trans(
            frac_add(frac_mul(c@, frac_sub((1int, 1int), partition.total@)), frac_mul(params.cp_v@, partition.total@)),
            frac_add(c@, frac_mul(frac_sub(params.cp_v@, c@), partition.total@)),
            frac_add(
                params.cp_d_frac(),
                frac_mul(frac_sub(params.cp_v@, params.cp_d_frac()), partition.total@),
            ),
        );
        lemma_frac_add_cong(
            frac_add(frac_mul(c@, frac_sub((1int, 1int), partition.total@)), frac_mul(params.cp_v@, partition.total@)),
            frac_add(
                params.cp_d_frac(),
                frac_mul(frac_sub(params.cp_v@, params.cp_d_frac()), partition.total@),
            ),
            t3@,
            frac_mul(frac_sub(params.cp_l@, params.cp_v@), partition.liquid@),
        );
        lemma_frac_add_cong(
            frac_add(
                frac_add(frac_mul(c@, frac_sub((1int, 1int), partition.total@)), frac_mul(params.cp_v@, partition.total@)),
                t3@,
            ),
            frac_add(
                frac_add(
                    params.cp_d_frac(),
                    frac_mul(frac_sub(params.cp_v@, params.cp_d_frac()), partition.total@),
                ),
                frac_mul(frac_sub(params.cp_l@, params.cp_v@), partition.liquid@),
            ),
            t4@,
            frac_mul(frac_sub(params.cp_i@, params.cp_v@), partition.ice@),
        );
    }
    s3.plus(&t4)
}

/// Repeated construction is deterministic: any two well-formed parameter
/// sets carry identical field values.
pub proof fn lemma_construction_deterministic(
    a: &ThermodynamicParameterSet,
    b: &ThermodynamicParameterSet,
)
    requires
        a.wf(),
        b.wf(),
    ensures
        a == b,
{
}

/// The latent heat of fusion is the difference of the reference latent
/// heats, and the ice internal-energy reference equals it exactly.
pub proof fn lemma_fusion_reference(ps: &ThermodynamicParameterSet)
    ensures
        frac_eq(ps.lh_f0_frac(), frac_sub(ps.lh_s0@, ps.lh_v0@)),
        ps.e_int_i0_frac() == ps.lh_f0_frac(),
{
}

/// The constant table's derived internal-energy references agree with the
/// same formulas recomputed from a well-formed parameter set's base
/// constants.
pub proof fn lemma_internal_energy_references_consistent(ps: &ThermodynamicParameterSet)
    requires
        ps.wf(),
    ensures
        frac_eq(crate::constants::e_internal_water_solid_tp_frac(), ps.lh_f0_frac()),
        frac_eq(
            crate::constants::e_internal_water_vapor_tp_frac(),
            frac_sub(
                ps.lh_v0@,
                frac_mul(ps.r_v_frac(), crate::constants::standard_temperature_frac()),
            ),
        ),
{
}

} // verus!
