use tauri_wasm::api::dpi::LogicalPosition;
use tauri_wasm::api::dpi::LogicalSize;
use tauri_wasm::api::dpi::PhysicalPosition;
use tauri_wasm::api::dpi::PhysicalSize;
use tauri_wasm::api::dpi::Position;
use tauri_wasm::api::dpi::Size;

#[test]
fn logical_position_new_and_getters() {
    let p = LogicalPosition::new(10, -20);
    assert_eq!(p.x(), 10);
    assert_eq!(p.y(), -20);
}

#[test]
fn logical_position_setters() {
    let mut p = LogicalPosition::new(1, 2);
    p.set_x(7);
    assert_eq!(p.x(), 7);
    assert_eq!(p.y(), 2);
    p.set_y(-9);
    assert_eq!(p.x(), 7);
    assert_eq!(p.y(), -9);
}

#[test]
fn physical_position_new_and_setters() {
    let mut p = PhysicalPosition::new(-3, 4);
    assert_eq!(p.x(), -3);
    assert_eq!(p.y(), 4);
    p.set_x(0);
    p.set_y(100);
    assert_eq!(p.x(), 0);
    assert_eq!(p.y(), 100);
}

#[test]
fn logical_size_new_and_setters() {
    let mut s = LogicalSize::new(800, 600);
    assert_eq!(s.width(), 800);
    assert_eq!(s.height(), 600);
    s.set_width(1024);
    s.set_height(768);
    assert_eq!(s.width(), 1024);
    assert_eq!(s.height(), 768);
}

#[test]
fn physical_size_new_and_setters() {
    let mut s = PhysicalSize::new(1920, 1080);
    assert_eq!(s.width(), 1920);
    assert_eq!(s.height(), 1080);
    s.set_width(2560);
    s.set_height(1440);
    assert_eq!(s.width(), 2560);
    assert_eq!(s.height(), 1440);
}

#[test]
fn to_logical_divides_exactly() {
    let s = PhysicalSize::new(800, 600);
    let l = s.to_logical(2);
    assert_eq!(l, LogicalSize::new(400, 300));
}

#[test]
fn to_logical_rounds_down() {
    let s = PhysicalSize::new(799, 601);
    let l = s.to_logical(2);
    assert_eq!(l, LogicalSize::new(399, 300));
}

#[test]
fn to_logical_identity_at_scale_one() {
    let s = PhysicalSize::new(1366, 768);
    assert_eq!(s.to_logical(1), LogicalSize::new(1366, 768));
}

#[test]
fn position_from_either_space() {
    let lp = LogicalPosition::new(1, 2);
    let pp = PhysicalPosition::new(3, 4);
    assert_eq!(Position::from(lp.clone()), Position::Logical(lp));
    assert_eq!(Position::from(pp.clone()), Position::Physical(pp));
}

#[test]
fn size_from_either_space() {
    let ls = LogicalSize::new(1, 2);
    let ps = PhysicalSize::new(3, 4);
    assert_eq!(Size::from(ls.clone()), Size::Logical(ls));
    assert_eq!(Size::from(ps.clone()), Size::Physical(ps));
}
