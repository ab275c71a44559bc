use gamejam::light::{pack_lights, LightingMaterial, Lights, NdcPoint, WorldPosition};
use gamejam::scalar::Scalar;
use gamejam::surface::ImageHandle;
use gamejam::uniform::{BLOCK_SIZE, ENTRY_STRIDE, SCALAR_SIZE};

fn scalar(x: f32) -> Scalar {
    Scalar::from_bits(x.to_bits())
}

#[test]
fn layout_constants() {
    assert_eq!(SCALAR_SIZE, 4);
    assert_eq!(ENTRY_STRIDE, 4 * SCALAR_SIZE);
    assert_eq!(BLOCK_SIZE, 16 * ENTRY_STRIDE);
}

#[test]
fn blank_block_is_256_zero_bytes() {
    let bytes = LightingMaterial::new(ImageHandle { id: 0 }).uniform_bytes();
    assert_eq!(bytes, vec![0u8; 256]);
}

#[test]
fn bytes_are_little_endian_scalars_at_a_stride_of_sixteen() {
    let mut lights = Lights::zeroed();
    let mut projections = [None; 16];
    for i in 0..16 {
        lights.set_light(
            i,
            WorldPosition { x: Scalar::zero(), y: Scalar::zero(), z: Scalar::zero() },
            scalar(i as f32 / 16.0),
        );
        projections[i] = Some(NdcPoint {
            x: scalar(i as f32 * 0.125 - 1.0),
            y: scalar(0.5 - i as f32),
            z: Scalar::zero(),
        });
    }
    let mut material = LightingMaterial::new(ImageHandle { id: 0 });
    assert!(pack_lights(&mut material, &lights, &projections, scalar(3.75)));
    let bytes = material.uniform_bytes();
    assert_eq!(bytes.len(), 256);
    for i in 0..16 {
        let entry = &bytes[16 * i..16 * i + 16];
        assert_eq!(entry[0..4], (i as f32 * 0.125 - 1.0).to_le_bytes());
        assert_eq!(entry[4..8], (i as f32 - 0.5).to_le_bytes());
        assert_eq!(entry[8..12], 3.75f32.to_le_bytes());
        assert_eq!(entry[12..16], (i as f32 / 16.0).to_le_bytes());
    }
}

#[test]
fn every_byte_of_a_scalar_is_placed() {
    let mut material = LightingMaterial::new(ImageHandle { id: 0 });
    material.lights[1].x = Scalar::from_bits(0x0403_0201);
    material.lights[15].strength = Scalar::from_bits(0xfffe_fdfc);
    let bytes = material.uniform_bytes();
    assert_eq!(bytes[16..20], [0x01, 0x02, 0x03, 0x04]);
    assert_eq!(bytes[252..256], [0xfc, 0xfd, 0xfe, 0xff]);
    assert_eq!(bytes.iter().filter(|b| **b != 0).count(), 8);
}
