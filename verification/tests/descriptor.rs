use turbojpeg::native::{
    TJINIT_COMPRESS, TJINIT_DECOMPRESS, TJINIT_TRANSFORM, TJPARAM_NOREALLOC, TJXOPT_COPYNONE,
    TJXOPT_CROP, TJXOPT_GRAY, TJXOPT_OPTIMIZE, TJXOPT_PERFECT, TJXOPT_PROGRESSIVE, TJXOPT_TRIM,
};
use turbojpeg::{Descriptor, Error, Init, Region, Transform, TransformCrop, TransformOp};

const TOO_BIG: usize = i32::MAX as usize + 1;

fn cropped(crop: TransformCrop) -> Transform {
    let mut transform = Transform::default();
    transform.crop = Some(crop);
    transform
}

#[test]
fn codec_constants() {
    assert_eq!(TJINIT_COMPRESS, 0);
    assert_eq!(TJINIT_DECOMPRESS, 1);
    assert_eq!(TJINIT_TRANSFORM, 2);
    assert_eq!(TJPARAM_NOREALLOC, 2);
    assert_eq!(TJXOPT_PERFECT, 1 << 0);
    assert_eq!(TJXOPT_TRIM, 1 << 1);
    assert_eq!(TJXOPT_CROP, 1 << 2);
    assert_eq!(TJXOPT_GRAY, 1 << 3);
    assert_eq!(TJXOPT_PROGRESSIVE, 1 << 5);
    assert_eq!(TJXOPT_COPYNONE, 1 << 6);
    assert_eq!(TJXOPT_OPTIMIZE, 1 << 8);
}

#[test]
fn init_codes() {
    assert_eq!(Init::Compress.code(), 0);
    assert_eq!(Init::Decompress.code(), 1);
    assert_eq!(Init::Transform.code(), 2);
}

#[test]
fn op_codes() {
    assert_eq!(TransformOp::Noop.code(), 0);
    assert_eq!(TransformOp::Hflip.code(), 1);
    assert_eq!(TransformOp::Vflip.code(), 2);
    assert_eq!(TransformOp::Transpose.code(), 3);
    assert_eq!(TransformOp::Transverse.code(), 4);
    assert_eq!(TransformOp::Rot90.code(), 5);
    assert_eq!(TransformOp::Rot180.code(), 6);
    assert_eq!(TransformOp::Rot270.code(), 7);
}

#[test]
fn defaults() {
    assert_eq!(TransformOp::default(), TransformOp::Noop);
    assert_eq!(
        TransformCrop::default(),
        TransformCrop { x: 0, y: 0, width: None, height: None }
    );
    let transform = Transform::default();
    assert_eq!(transform.op, TransformOp::Noop);
    assert_eq!(transform.crop, None);
    assert!(!transform.perfect && !transform.trim && !transform.gray);
    assert!(!transform.progressive && !transform.optimize && !transform.copy_none);
}

#[test]
fn op_sets_only_the_operation() {
    let transform = Transform::op(TransformOp::Rot90);
    assert_eq!(transform.op, TransformOp::Rot90);
    assert_eq!(transform.crop, None);
    assert!(!transform.perfect && !transform.trim && !transform.gray);
    assert!(!transform.progressive && !transform.optimize && !transform.copy_none);
    assert_eq!(transform.options(), 0);
}

#[test]
fn clone_keeps_every_field() {
    let mut transform = Transform::op(TransformOp::Vflip);
    transform.trim = true;
    transform.optimize = true;
    transform.crop = Some(TransformCrop { x: 16, y: 32, width: Some(200), height: None });
    let copy = transform.clone();
    assert_eq!(copy.op, TransformOp::Vflip);
    assert_eq!(copy.crop, transform.crop);
    assert!(copy.trim && copy.optimize);
    assert!(!copy.perfect && !copy.gray && !copy.progressive && !copy.copy_none);
    assert_eq!(copy.descriptor(), transform.descriptor());
}

#[test]
fn identity_descriptor_is_all_zero() {
    let transform = Transform::op(TransformOp::Noop);
    assert_eq!(
        transform.descriptor(),
        Ok(Descriptor { r: Region { x: 0, y: 0, w: 0, h: 0 }, op: 0, options: 0 })
    );
    assert_eq!(Transform::default().descriptor(), transform.descriptor());
}

#[test]
fn each_option_sets_its_own_bit() {
    let mut t = Transform::default();
    t.perfect = true;
    assert_eq!(t.options(), 1);
    let mut t = Transform::default();
    t.trim = true;
    assert_eq!(t.options(), 2);
    let mut t = Transform::default();
    t.gray = true;
    assert_eq!(t.options(), 8);
    let mut t = Transform::default();
    t.progressive = true;
    assert_eq!(t.options(), 32);
    let mut t = Transform::default();
    t.copy_none = true;
    assert_eq!(t.options(), 64);
    let mut t = Transform::default();
    t.optimize = true;
    assert_eq!(t.options(), 256);
    let t = cropped(TransformCrop::default());
    assert_eq!(t.options(), 4);
}

#[test]
fn all_options_together() {
    let mut t = cropped(TransformCrop { x: 8, y: 8, width: None, height: None });
    t.perfect = true;
    t.trim = true;
    t.gray = true;
    t.progressive = true;
    t.optimize = true;
    t.copy_none = true;
    assert_eq!(t.options(), 1 + 2 + 4 + 8 + 32 + 64 + 256);
    assert_eq!(t.descriptor().unwrap().options, 367);
}

#[test]
fn some_options_together() {
    let mut t = Transform::op(TransformOp::Rot270);
    t.perfect = true;
    t.copy_none = true;
    assert_eq!(
        t.descriptor(),
        Ok(Descriptor { r: Region { x: 0, y: 0, w: 0, h: 0 }, op: 7, options: 65 })
    );
}

#[test]
fn crop_fills_the_region() {
    let t = cropped(TransformCrop { x: 16, y: 32, width: Some(200), height: Some(100) });
    assert_eq!(
        t.descriptor(),
        Ok(Descriptor { r: Region { x: 16, y: 32, w: 200, h: 100 }, op: 0, options: 4 })
    );
}

#[test]
fn open_width_and_height_are_zero() {
    let t = cropped(TransformCrop { x: 16, y: 32, width: None, height: Some(100) });
    assert_eq!(t.descriptor().unwrap().r, Region { x: 16, y: 32, w: 0, h: 100 });
    let t = cropped(TransformCrop { x: 16, y: 32, width: Some(200), height: None });
    assert_eq!(t.descriptor().unwrap().r, Region { x: 16, y: 32, w: 200, h: 0 });
}

#[test]
fn largest_values_that_fit() {
    let max = i32::MAX as usize;
    let t = cropped(TransformCrop { x: max, y: max, width: Some(max), height: Some(max) });
    assert_eq!(
        t.descriptor().unwrap().r,
        Region { x: i32::MAX, y: i32::MAX, w: i32::MAX, h: i32::MAX }
    );
}

#[test]
fn crop_x_overflow() {
    let t = cropped(TransformCrop { x: TOO_BIG, y: 0, width: None, height: None });
    assert_eq!(t.descriptor(), Err(Error::IntegerOverflow("crop.x")));
}

#[test]
fn crop_y_overflow() {
    let t = cropped(TransformCrop { x: 0, y: TOO_BIG, width: None, height: None });
    assert_eq!(t.descriptor(), Err(Error::IntegerOverflow("crop.y")));
}

#[test]
fn crop_width_overflow() {
    let t = cropped(TransformCrop { x: 0, y: 0, width: Some(TOO_BIG), height: None });
    assert_eq!(t.descriptor(), Err(Error::IntegerOverflow("crop.width")));
}

#[test]
fn crop_height_overflow() {
    let t = cropped(TransformCrop { x: 0, y: 0, width: None, height: Some(usize::MAX) });
    assert_eq!(t.descriptor(), Err(Error::IntegerOverflow("crop.height")));
}

#[test]
fn first_overflowing_field_is_named() {
    let t = cropped(TransformCrop {
        x: TOO_BIG,
        y: TOO_BIG,
        width: Some(TOO_BIG),
        height: Some(TOO_BIG),
    });
    assert_eq!(t.descriptor(), Err(Error::IntegerOverflow("crop.x")));
    let t = cropped(TransformCrop { x: 1, y: TOO_BIG, width: Some(TOO_BIG), height: Some(TOO_BIG) });
    assert_eq!(t.descriptor(), Err(Error::IntegerOverflow("crop.y")));
    let t = cropped(TransformCrop { x: 1, y: 1, width: Some(TOO_BIG), height: Some(TOO_BIG) });
    assert_eq!(t.descriptor(), Err(Error::IntegerOverflow("crop.width")));
}
