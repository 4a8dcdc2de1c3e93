use nbody::arithmetic::{Arithmetic, Operation};
use nbody::body::{Body, BodyMass, LARGE_MASS, MEDIUM_MASS, SMALL_MASS};
use nbody::force::{gravitational_force, orbital_velocity, SimulationError, G};
use nbody::scalar::{
    less_or_equal, magnitude, nan, positive_finite, zero, INFINITY, ONE, SIGN_BIT, ZERO,
};
use nbody::vector::Vector3;

fn ieee(op: Operation, a: u64, b: u64) -> u64 {
    let x = f64::from_bits(a);
    let y = f64::from_bits(b);
    let r = match op {
        Operation::Add => x + y,
        Operation::Subtract => x - y,
        Operation::Multiply => x * y,
        Operation::Divide => x / y,
        Operation::SquareRoot => x.sqrt(),
        Operation::Logarithm => x.log10(),
    };
    if r.is_nan() {
        f64::NAN.to_bits()
    } else {
        r.to_bits()
    }
}

fn vector(x: f64, y: f64, z: f64) -> Vector3 {
    Vector3::new(x.to_bits(), y.to_bits(), z.to_bits())
}

fn floats(v: Vector3) -> (f64, f64, f64) {
    (f64::from_bits(v.x), f64::from_bits(v.y), f64::from_bits(v.z))
}

fn body(position: (f64, f64, f64), velocity: (f64, f64, f64), mass: f64) -> Body {
    Body {
        position: vector(position.0, position.1, position.2),
        velocity: vector(velocity.0, velocity.1, velocity.2),
        mass: mass.to_bits(),
    }
}

fn samples() -> Vec<f64> {
    vec![
        0.0,
        -0.0,
        1.0,
        -1.0,
        2.0,
        -2.0,
        1e-300,
        -1e-300,
        5e-324,
        -5e-324,
        1e300,
        -1e300,
        f64::MAX,
        f64::MIN,
        f64::INFINITY,
        f64::NEG_INFINITY,
        f64::NAN,
        -f64::NAN,
        0.1,
        30.0,
    ]
}

#[test]
fn constants_encode_their_numbers() {
    assert_eq!(f64::from_bits(G), 0.00000001);
    assert_eq!(f64::from_bits(ZERO), 0.0);
    assert!(f64::from_bits(ZERO).is_sign_positive());
    assert_eq!(f64::from_bits(ONE), 1.0);
    assert_eq!(INFINITY, f64::INFINITY.to_bits());
    assert_eq!(SIGN_BIT, (-0.0f64).to_bits());
    assert_eq!(f64::from_bits(SMALL_MASS), 10.0);
    assert_eq!(f64::from_bits(MEDIUM_MASS), 1000.0);
    assert_eq!(f64::from_bits(LARGE_MASS), 100000.0);
}

#[test]
fn mass_classes_map_to_their_masses() {
    assert_eq!(f64::from_bits(BodyMass::Small.value()), 10.0);
    assert_eq!(f64::from_bits(BodyMass::Medium.value()), 1000.0);
    assert_eq!(f64::from_bits(BodyMass::Large.value()), 100000.0);
}

#[test]
fn a_body_at_rest_has_zero_velocity_and_the_class_mass() {
    let b = Body::at_rest(vector(1.0, 2.0, 3.0), BodyMass::Medium);
    assert_eq!(floats(b.position), (1.0, 2.0, 3.0));
    assert_eq!(b.velocity, Vector3::zero());
    assert_eq!(f64::from_bits(b.mass), 1000.0);
    assert!(b.valid_mass());
}

#[test]
fn less_or_equal_is_the_comparison_of_the_numbers() {
    for a in samples() {
        for b in samples() {
            assert_eq!(less_or_equal(a.to_bits(), b.to_bits()), a <= b, "{} <= {}", a, b);
        }
    }
}

#[test]
fn scalar_predicates_agree_with_the_numbers() {
    for a in samples() {
        let bits = a.to_bits();
        assert_eq!(zero(bits), a == 0.0, "zero {}", a);
        assert_eq!(nan(bits), a.is_nan(), "nan {}", a);
        assert_eq!(positive_finite(bits), a > 0.0 && a.is_finite(), "positive finite {}", a);
        assert_eq!(magnitude(bits), a.is_sign_positive() && !a.is_nan(), "magnitude {}", a);
    }
}

#[test]
fn magnitudes_are_ordered_as_their_bits() {
    let values = [0.0, 5e-324, 1e-300, 0.1, 1.0, 2.0, 30.0, 1e300, f64::MAX, f64::INFINITY];
    for (i, a) in values.iter().enumerate() {
        for (j, b) in values.iter().enumerate() {
            assert_eq!(a.to_bits() <= b.to_bits(), i <= j);
        }
    }
}

#[test]
fn the_unit_is_asked_for_each_operation() {
    let arithmetic = Arithmetic::new(ieee);
    assert_eq!(f64::from_bits(arithmetic.plus(1.5f64.to_bits(), 2.25f64.to_bits())), 3.75);
    assert_eq!(f64::from_bits(arithmetic.minus(1.5f64.to_bits(), 2.25f64.to_bits())), -0.75);
    assert_eq!(f64::from_bits(arithmetic.times(1.5f64.to_bits(), 2.0f64.to_bits())), 3.0);
    assert_eq!(f64::from_bits(arithmetic.over(1.5f64.to_bits(), 2.0f64.to_bits())), 0.75);
    assert_eq!(f64::from_bits(arithmetic.sqrt(81.0f64.to_bits())), 9.0);
    assert_eq!(f64::from_bits(arithmetic.log10(1000.0f64.to_bits())), 3.0);
    assert_eq!(
        f64::from_bits(arithmetic.apply(Operation::Subtract, 7.0f64.to_bits(), 2.0f64.to_bits())),
        5.0
    );
}

#[test]
fn vector_algebra_works_component_by_component() {
    let arithmetic = Arithmetic::new(ieee);
    let a = vector(1.0, 2.0, 3.0);
    let b = vector(-4.0, 0.5, 2.0);
    assert_eq!(floats(arithmetic.add_vectors(a, b)), (-3.0, 2.5, 5.0));
    assert_eq!(floats(arithmetic.subtract_vectors(a, b)), (5.0, 1.5, 1.0));
    assert_eq!(floats(arithmetic.multiply(2.0f64.to_bits(), a)), (2.0, 4.0, 6.0));
    assert_eq!(floats(arithmetic.scale(a, 0.5f64.to_bits())), (0.5, 1.0, 1.5));
    assert_eq!(floats(arithmetic.divide(a, 2.0f64.to_bits())), (0.5, 1.0, 1.5));
    assert_eq!(f64::from_bits(arithmetic.inner_product(a, b)), -4.0 + 1.0 + 6.0);
    assert_eq!(f64::from_bits(arithmetic.squared_length(a)), 14.0);
    assert_eq!(f64::from_bits(arithmetic.length(vector(3.0, 4.0, 12.0))), 13.0);
    assert_eq!(f64::from_bits(arithmetic.distance_between(a, vector(1.0, 5.0, 7.0))), 5.0);
}

#[test]
fn normalize_gives_length_one() {
    let arithmetic = Arithmetic::new(ieee);
    assert_eq!(floats(arithmetic.normalize(vector(0.0, -8.0, 0.0))), (0.0, -1.0, 0.0));
    let n = floats(arithmetic.normalize(vector(3.0, 4.0, 12.0)));
    let factor = 1.0 / 13.0;
    assert_eq!(n, (3.0 * factor, 4.0 * factor, 12.0 * factor));
}

#[test]
fn cross_product_follows_the_right_hand() {
    let arithmetic = Arithmetic::new(ieee);
    let x = vector(1.0, 0.0, 0.0);
    let y = vector(0.0, 1.0, 0.0);
    assert_eq!(floats(arithmetic.cross_product(x, y)), (0.0, 0.0, 1.0));
    assert_eq!(floats(arithmetic.cross_product(y, Vector3::unit_z())), (1.0, 0.0, 0.0));
    assert_eq!(
        floats(arithmetic.cross_product(vector(1.0, 2.0, 3.0), vector(4.0, 5.0, 6.0))),
        (-3.0, 6.0, -3.0)
    );
}

#[test]
fn gravitational_force_follows_the_formula() {
    let arithmetic = Arithmetic::new(ieee);
    let a = body((10.0, 0.0, 0.0), (0.0, 0.0, 0.0), 10000000.0);
    let b = body((-20.0, 0.0, 0.0), (0.0, 0.0, 0.0), 5000000.0);
    let force = gravitational_force(&arithmetic, &a, &b).unwrap();
    assert_eq!(f64::from_bits(force), 0.00000001 * 10000000.0 * 5000000.0 / 900.0);
    let back = gravitational_force(&arithmetic, &b, &a).unwrap();
    assert_eq!(f64::from_bits(back), 0.00000001 * 5000000.0 * 10000000.0 / 900.0);
}

#[test]
fn gravitational_force_in_three_dimensions() {
    let arithmetic = Arithmetic::new(ieee);
    let a = body((1.0, 2.0, 3.0), (9.0, 9.0, 9.0), 1000.0);
    let b = body((4.0, 6.0, 15.0), (0.0, 0.0, 0.0), 10.0);
    let force = gravitational_force(&arithmetic, &a, &b).unwrap();
    assert_eq!(f64::from_bits(force), 0.00000001 * 1000.0 * 10.0 / 169.0);
}

#[test]
fn gravitational_force_refuses_coincident_bodies() {
    let arithmetic = Arithmetic::new(ieee);
    let a = body((1.0, 2.0, 3.0), (0.0, 0.0, 0.0), 1000.0);
    let b = body((1.0, 2.0, 3.0), (1.0, 0.0, 0.0), 10.0);
    assert_eq!(gravitational_force(&arithmetic, &a, &b), Err(SimulationError::DegenerateGeometry));
    let c = body((0.0, 0.0, 0.0), (0.0, 0.0, 0.0), 10.0);
    let d = body((-0.0, 0.0, -0.0), (0.0, 0.0, 0.0), 10.0);
    assert_eq!(gravitational_force(&arithmetic, &c, &d), Err(SimulationError::DegenerateGeometry));
}

#[test]
fn gravitational_force_refuses_a_separation_that_squares_to_zero() {
    let arithmetic = Arithmetic::new(ieee);
    let a = body((0.0, 0.0, 0.0), (0.0, 0.0, 0.0), 1000.0);
    let b = body((1e-200, 0.0, 0.0), (0.0, 0.0, 0.0), 10.0);
    assert_eq!(gravitational_force(&arithmetic, &a, &b), Err(SimulationError::DegenerateGeometry));
}

#[test]
fn orbital_velocity_follows_the_formula() {
    let arithmetic = Arithmetic::new(ieee);
    let a = body((10.0, 0.0, 0.0), (0.0, 0.0, 0.0), 10000000.0);
    let b = body((-20.0, 0.0, 0.0), (0.0, 0.0, 0.0), 5000000.0);
    let v = floats(orbital_velocity(&arithmetic, &a, &b).unwrap());
    let speed = (0.00000001f64 * 15000000.0 / 30.0).sqrt() * (5000000.0 / 15000000.0);
    assert_eq!(v, (0.0, speed, 0.0));
    assert!((speed - 0.023570226039551584).abs() < 1e-15);
    let w = floats(orbital_velocity(&arithmetic, &b, &a).unwrap());
    let speed_back = (0.00000001f64 * 15000000.0 / 30.0).sqrt() * (10000000.0 / 15000000.0);
    assert_eq!(w, (0.0, -speed_back, 0.0));
}

#[test]
fn orbital_velocity_is_perpendicular_to_the_separation_and_to_up() {
    let arithmetic = Arithmetic::new(ieee);
    let a = body((1.0, 1.0, 0.0), (0.0, 0.0, 0.0), 10.0);
    let b = body((4.0, 5.0, 0.0), (7.0, 7.0, 7.0), 1000.0);
    let v = floats(orbital_velocity(&arithmetic, &a, &b).unwrap());
    let speed = (0.00000001f64 * 1010.0 / 5.0).sqrt() * (1000.0 / 1010.0);
    let factor = 1.0 / 5.0;
    let (nx, ny) = (3.0 * factor, 4.0 * factor);
    assert_eq!(v.0, speed * (ny * 1.0 - 0.0 * 0.0));
    assert_eq!(v.1, speed * (0.0 * 0.0 - nx * 1.0));
    assert_eq!(v.2, 0.0);
    assert!((v.0 * 3.0 + v.1 * 4.0).abs() < 1e-18);
}

#[test]
fn orbital_velocity_ignores_the_velocities() {
    let arithmetic = Arithmetic::new(ieee);
    let a = body((1.0, 1.0, 0.0), (0.0, 0.0, 0.0), 10.0);
    let b = body((4.0, 5.0, 0.0), (0.0, 0.0, 0.0), 1000.0);
    let a_moving = body((1.0, 1.0, 0.0), (3.0, 2.0, 1.0), 10.0);
    let b_moving = body((4.0, 5.0, 0.0), (7.0, 7.0, 7.0), 1000.0);
    assert_eq!(
        orbital_velocity(&arithmetic, &a, &b),
        orbital_velocity(&arithmetic, &a_moving, &b_moving)
    );
}

#[test]
fn orbital_velocity_refuses_coincident_bodies() {
    let arithmetic = Arithmetic::new(ieee);
    let a = body((1.0, 2.0, 3.0), (0.0, 0.0, 0.0), 1000.0);
    let b = body((1.0, 2.0, 3.0), (0.0, 0.0, 0.0), 10.0);
    assert_eq!(orbital_velocity(&arithmetic, &a, &b), Err(SimulationError::DegenerateGeometry));
}
