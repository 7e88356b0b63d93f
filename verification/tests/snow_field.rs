use xmas_tree::coords::Vec3Bits;
use xmas_tree::mesh::{Mesh, Vertex};
use xmas_tree::snow::{
    MAX_SNOWFLAKES, ONE_BITS, RotationWords, SNOW_Y_MAX_BITS, SNOW_Y_MIN_BITS, Snow, Snowflake,
    f32_bits_lt, snowflake_indices,
};

const FALL_SPEED: f32 = 0.01;

fn v3(x: f32, y: f32, z: f32) -> Vec3Bits {
    Vec3Bits::new(x.to_bits(), y.to_bits(), z.to_bits())
}

fn flake_mesh() -> Mesh {
    // a placeholder hexagonal flake: twelve vertices, the fixed index list
    let vertices: Vec<Vertex> = (0..12)
        .map(|i| Vertex {
            position: v3(0.0, i as f32, 0.0),
            normal: v3(1.0, 0.0, 0.0),
        })
        .collect();
    Mesh::new(vertices, snowflake_indices(), MAX_SNOWFLAKES)
}

fn uniform_flakes(y: f32) -> Vec<Snowflake> {
    (0..MAX_SNOWFLAKES)
        .map(|i| Snowflake {
            position: v3(i as f32 * 0.001, y, -3.0),
            rotation: v3(0.1, 0.2, 0.3),
        })
        .collect()
}

fn identity_rotations() -> Vec<RotationWords> {
    (0..MAX_SNOWFLAKES)
        .map(|_| RotationWords {
            col0: v3(1.0, 0.0, 0.0),
            col1: v3(0.0, 1.0, 0.0),
            col2: v3(0.0, 0.0, 1.0),
        })
        .collect()
}

#[test]
fn bound_constants_are_the_float_patterns() {
    assert_eq!(SNOW_Y_MIN_BITS, (-5.0f32).to_bits());
    assert_eq!(SNOW_Y_MAX_BITS, 10.0f32.to_bits());
    assert_eq!(ONE_BITS, 1.0f32.to_bits());
}

#[test]
fn bit_comparison_agrees_with_float_comparison() {
    let samples: Vec<f32> = vec![
        0.0, -0.0, 1.0, -1.0, 5.0, -5.0, -5.0001, -4.9999, 10.0, -10.0, 0.01, -0.01,
        f32::MIN_POSITIVE, -f32::MIN_POSITIVE, 1.0e-40, -1.0e-40, f32::MAX, f32::MIN,
        f32::INFINITY, f32::NEG_INFINITY, f32::NAN,
    ];
    for &a in &samples {
        for &b in &samples {
            assert_eq!(
                f32_bits_lt(a.to_bits(), b.to_bits()),
                a < b,
                "disagreement at {} < {}",
                a,
                b
            );
        }
    }
}

#[test]
fn snowflake_index_list_is_fixed() {
    assert_eq!(snowflake_indices(), vec![8, 4, 0, 10, 6, 2, 1, 5, 9, 3, 7, 11]);
}

#[test]
fn fallen_flake_wraps_to_the_upper_bound() {
    let mut snow = Snow::new(flake_mesh(), uniform_flakes(-5.0), 5.0f32.to_bits());
    // the frame's candidates: zero jitter, so each particle only falls
    let candidates: Vec<Snowflake> = snow
        .snowflakes()
        .iter()
        .map(|f| {
            let y = f32::from_bits(f.position.y) + 0.0 - FALL_SPEED;
            Snowflake {
                position: Vec3Bits::new(f.position.x, y.to_bits(), f.position.z),
                rotation: f.rotation,
            }
        })
        .collect();
    snow.move_snowflakes(&candidates);
    for (i, f) in snow.snowflakes().iter().enumerate() {
        assert_eq!(f.position.y, SNOW_Y_MAX_BITS);
        // horizontal position and rotation survive the wrap
        assert_eq!(f.position.x, ((i as f32) * 0.001).to_bits());
        assert_eq!(f.position.z, (-3.0f32).to_bits());
        assert_eq!(f.rotation, v3(0.1, 0.2, 0.3));
    }
}

#[test]
fn flake_above_the_bound_keeps_falling() {
    let mut snow = Snow::new(flake_mesh(), uniform_flakes(2.0), 5.0f32.to_bits());
    let candidates: Vec<Snowflake> = snow
        .snowflakes()
        .iter()
        .map(|f| {
            let y = f32::from_bits(f.position.y) - FALL_SPEED;
            Snowflake {
                position: Vec3Bits::new(f.position.x, y.to_bits(), f.position.z),
                rotation: f.rotation,
            }
        })
        .collect();
    snow.move_snowflakes(&candidates);
    for f in snow.snowflakes().iter() {
        assert_eq!(f.position.y, (2.0f32 - FALL_SPEED).to_bits());
    }
}

#[test]
fn next_frame_rewrites_the_instance_buffer() {
    let mut snow = Snow::new(flake_mesh(), uniform_flakes(2.0), 7.0f32.to_bits());
    let candidates = uniform_flakes(1.99);
    snow.next_frame(&candidates, &identity_rotations());

    let words = snow.mesh().instance_data();
    assert_eq!(words.len(), 17 * MAX_SNOWFLAKES);
    // first instance: identity rotation columns with zero fourth components
    assert_eq!(words[0], 1.0f32.to_bits());
    assert_eq!(words[1], 0);
    assert_eq!(words[3], 0);
    assert_eq!(words[5], 1.0f32.to_bits());
    assert_eq!(words[10], 1.0f32.to_bits());
    // translation column: the particle's position and a unit coordinate
    assert_eq!(words[12], 0.0f32.to_bits());
    assert_eq!(words[13], 1.99f32.to_bits());
    assert_eq!(words[14], (-3.0f32).to_bits());
    assert_eq!(words[15], ONE_BITS);
    // the shared material handle word
    assert_eq!(words[16], 7.0f32.to_bits());
    // second instance follows at the next stride
    assert_eq!(words[17], 1.0f32.to_bits());
    assert_eq!(words[17 + 12], 0.001f32.to_bits());
}

#[test]
fn draw_replicates_the_whole_population() {
    let snow = Snow::new(flake_mesh(), uniform_flakes(0.0), 0.0f32.to_bits());
    let call = snow.draw();
    assert_eq!(call.index_count, 12);
    assert_eq!(call.instance_count, MAX_SNOWFLAKES);
    assert!(call.instanced);
}
