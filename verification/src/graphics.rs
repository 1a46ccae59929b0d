use vstd::prelude::*;
use crate::geometry::FixedVec2;
use crate::random::{gen_below, thread_rng};

verus! {

/// Kinds of obstacle cars.
#[derive(PartialEq, Eq, Structural, Clone, Copy, Debug)]
pub enum CarType {
    Sedan,
    Suv,
    Truck,
    Sports,
}

/// Width and height, in percent, of a car kind relative to a sedan.
pub open spec fn size_multiplier_of(car: CarType) -> (int, int) {
    match car {
        CarType::Sedan => (100, 100),
        CarType::Suv => (110, 120),
        CarType::Truck => (120, 140),
        CarType::Sports => (90, 110),
    }
}

/// Base width and height of an obstacle's hit box (thousandths of a pixel).
pub const BASE_HITBOX_WIDTH: i64 = 35000;
pub const BASE_HITBOX_HEIGHT: i64 = 50000;

/// Car kind at a position of the list Sedan, Suv, Truck, Sports.
pub open spec fn car_type_at(index: int) -> CarType {
    if index == 0 { CarType::Sedan }
    else if index == 1 { CarType::Suv }
    else if index == 2 { CarType::Truck }
    else { CarType::Sports }
}

impl CarType {
    /// Body colour as red, green, blue and alpha percentages.
    pub fn base_color(&self) -> (rgba: [u32; 4])
        ensures
            rgba@ == (match *self {
                CarType::Sedan => seq![80u32, 20, 20, 100],
                CarType::Suv => seq![20u32, 60, 20, 100],
                CarType::Truck => seq![90u32, 50, 10, 100],
                CarType::Sports => seq![60u32, 20, 70, 100],
            }),
    {
        let rgba = match self {
            CarType::Sedan => [80, 20, 20, 100],
            CarType::Suv => [20, 60, 20, 100],
            CarType::Truck => [90, 50, 10, 100],
            CarType::Sports => [60, 20, 70, 100],
        };
        assert(rgba@ =~= (match *self {
            CarType::Sedan => seq![80u32, 20, 20, 100],
            CarType::Suv => seq![20u32, 60, 20, 100],
            CarType::Truck => seq![90u32, 50, 10, 100],
            CarType::Sports => seq![60u32, 20, 70, 100],
        }));
        rgba
    }

    /// Width and height in percent of a sedan's.
    pub fn size_multiplier(&self) -> (m: FixedVec2)
        ensures
            (m.x as int, m.y as int) == size_multiplier_of(*self),
    {
        match self {
            CarType::Sedan => FixedVec2 { x: 100, y: 100 },
            CarType::Suv => FixedVec2 { x: 110, y: 120 },
            CarType::Truck => FixedVec2 { x: 120, y: 140 },
            CarType::Sports => FixedVec2 { x: 90, y: 110 },
        }
    }

    /// Full width and height of the car's hit box (thousandths of a pixel):
    /// the base box scaled by the car's size multipliers.
    pub fn hitbox_size(&self) -> (size: FixedVec2)
        ensures
            size.x == BASE_HITBOX_WIDTH * size_multiplier_of(*self).0 / 100,
            size.y == BASE_HITBOX_HEIGHT * size_multiplier_of(*self).1 / 100,
    {
        let m = self.size_multiplier();
        FixedVec2 { x: BASE_HITBOX_WIDTH * m.x / 100, y: BASE_HITBOX_HEIGHT * m.y / 100 }
    }
}

/// Car kind at a position of the list Sedan, Suv, Truck, Sports.
pub fn car_type_for_index(index: u32) -> (car: CarType)
    requires
        index < 4,
    ensures
        car == car_type_at(index as int),
{
    if index == 0 {
        CarType::Sedan
    } else if index == 1 {
        CarType::Suv
    } else if index == 2 {
        CarType::Truck
    } else {
        CarType::Sports
    }
}

/// A car kind picked by chance, each of the four with the same odds; the
/// result is one of the four, whichever came up.
pub fn random_car_type() -> (car: CarType)
    ensures
        exists|i: int| 0 <= i < 4 && car == car_type_at(i),
{
    let mut rng = thread_rng();
    let index = gen_below(&mut rng, 4);
    car_type_for_index(index)
}

/// What an art pixel of an obstacle car shows.
#[derive(PartialEq, Eq, Structural, Clone, Copy, Debug)]
pub enum CarPaint {
    /// The car's body colour.
    Body,
    /// The body colour darkened to 70%, on the corners.
    Shade,
    /// Window glass.
    Window,
    /// Tyre.
    Wheel,
    /// Rear light.
    TailLight,
}

/// One square of a car's pixel art: its centre in half art pixels from the
/// car's centre (y grows upward) and its colour as red, green, blue and
/// alpha percentages.
#[derive(PartialEq, Eq, Structural, Clone, Copy, Debug)]
pub struct ArtPixel {
    pub x: i32,
    pub y: i32,
    pub r: u32,
    pub g: u32,
    pub b: u32,
    pub a: u32,
}

/// Body colour of a car kind (red, green, blue, alpha percentages).
pub open spec fn body_rgba(car: CarType) -> (u32, u32, u32, u32) {
    match car {
        CarType::Sedan => (80, 20, 20, 100),
        CarType::Suv => (20, 60, 20, 100),
        CarType::Truck => (90, 50, 10, 100),
        CarType::Sports => (60, 20, 70, 100),
    }
}

/// Colour of a paint on a car kind; the shade keeps each colour channel at
/// 70%, truncated, and is opaque.
pub open spec fn paint_rgba(paint: CarPaint, car: CarType) -> (u32, u32, u32, u32) {
    let body = body_rgba(car);
    match paint {
        CarPaint::Body => body,
        CarPaint::Shade => ((body.0 * 70 / 100) as u32, (body.1 * 70 / 100) as u32, (body.2 * 70 / 100) as u32, 100),
        CarPaint::Window => (30, 50, 70, 100),
        CarPaint::Wheel => (15, 15, 15, 100),
        CarPaint::TailLight => (100, 30, 30, 100),
    }
}

/// Layout of an obstacle car, drawn in this order (later squares cover
/// earlier ones at the same place): the body with shaded corners, then the
/// windows, the wheels and the rear lights.
pub open spec fn obstacle_car_layout() -> Seq<(i32, i32, CarPaint)> {
    seq![
        (-4i32, 5i32, CarPaint::Shade),
        (-2i32, 5i32, CarPaint::Body),
        (0i32, 5i32, CarPaint::Body),
        (2i32, 5i32, CarPaint::Body),
        (4i32, 5i32, CarPaint::Shade),
        (-6i32, 3i32, CarPaint::Body),
        (-4i32, 3i32, CarPaint::Body),
        (-2i32, 3i32, CarPaint::Body),
        (0i32, 3i32, CarPaint::Body),
        (2i32, 3i32, CarPaint::Body),
        (4i32, 3i32, CarPaint::Body),
        (6i32, 3i32, CarPaint::Body),
        (-6i32, 1i32, CarPaint::Body),
        (6i32, 1i32, CarPaint::Body),
        (-6i32, -1i32, CarPaint::Body),
        (-4i32, -1i32, CarPaint::Body),
        (-2i32, -1i32, CarPaint::Body),
        (0i32, -1i32, CarPaint::Body),
        (2i32, -1i32, CarPaint::Body),
        (4i32, -1i32, CarPaint::Body),
        (6i32, -1i32, CarPaint::Body),
        (-6i32, -3i32, CarPaint::Body),
        (6i32, -3i32, CarPaint::Body),
        (-4i32, -5i32, CarPaint::Shade),
        (-2i32, -5i32, CarPaint::Body),
        (0i32, -5i32, CarPaint::Body),
        (2i32, -5i32, CarPaint::Body),
        (4i32, -5i32, CarPaint::Shade),
        (-2i32, 3i32, CarPaint::Window),
        (0i32, 3i32, CarPaint::Window),
        (2i32, 3i32, CarPaint::Window),
        (-6i32, 1i32, CarPaint::Wheel),
        (6i32, 1i32, CarPaint::Wheel),
        (-6i32, -3i32, CarPaint::Wheel),
        (6i32, -3i32, CarPaint::Wheel),
        (-4i32, -5i32, CarPaint::TailLight),
        (4i32, -5i32, CarPaint::TailLight)
    ]
}

/// A square of the layout painted for a car kind.
pub open spec fn art_pixel(square: (i32, i32, CarPaint), car: CarType) -> ArtPixel {
    let c = paint_rgba(square.2, car);
    ArtPixel { x: square.0, y: square.1, r: c.0, g: c.1, b: c.2, a: c.3 }
}

/// Colour of a paint on a car kind.
pub fn paint_color(paint: CarPaint, car: CarType) -> (rgba: (u32, u32, u32, u32))
    ensures
        rgba == paint_rgba(paint, car),
{
    let body = car.base_color();
    match paint {
        CarPaint::Body => (body[0], body[1], body[2], body[3]),
        CarPaint::Shade => (body[0] * 70 / 100, body[1] * 70 / 100, body[2] * 70 / 100, 100),
        CarPaint::Window => (30, 50, 70, 100),
        CarPaint::Wheel => (15, 15, 15, 100),
        CarPaint::TailLight => (100, 30, 30, 100),
    }
}

/// The pixel art of an obstacle car of kind `car`, square by square in
/// drawing order.
pub fn obstacle_car_pixels(car: CarType) -> (pixels: Vec<ArtPixel>)
    ensures
        pixels@.len() == obstacle_car_layout().len(),
        forall|i: int| 0 <= i < pixels@.len() ==> #[trigger] pixels@[i] == art_pixel(obstacle_car_layout()[i], car),
{
    let layout: [(i32, i32, CarPaint); 37] = [
        (-4, 5, CarPaint::Shade),
        (-2, 5, CarPaint::Body),
        (0, 5, CarPaint::Body),
        (2, 5, CarPaint::Body),
        (4, 5, CarPaint::Shade),
        (-6, 3, CarPaint::Body),
        (-4, 3, CarPaint::Body),
        (-2, 3, CarPaint::Body),
        (0, 3, CarPaint::Body),
        (2, 3, CarPaint::Body),
        (4, 3, CarPaint::Body),
        (6, 3, CarPaint::Body),
        (-6, 1, CarPaint::Body),
        (6, 1, CarPaint::Body),
        (-6, -1, CarPaint::Body),
        (-4, -1, CarPaint::Body),
        (-2, -1, CarPaint::Body),
        (0, -1, CarPaint::Body),
        (2, -1, CarPaint::Body),
        (4, -1, CarPaint::Body),
        (6, -1, CarPaint::Body),
        (-6, -3, CarPaint::Body),
        (6, -3, CarPaint::Body),
        (-4, -5, CarPaint::Shade),
        (-2, -5, CarPaint::Body),
        (0, -5, CarPaint::Body),
        (2, -5, CarPaint::Body),
        (4, -5, CarPaint::Shade),
        (-2, 3, CarPaint::Window),
        (0, 3, CarPaint::Window),
        (2, 3, CarPaint::Window),
        (-6, 1, CarPaint::Wheel),
        (6, 1, CarPaint::Wheel),
        (-6, -3, CarPaint::Wheel),
        (6, -3, CarPaint::Wheel),
        (-4, -5, CarPaint::TailLight),
        (4, -5, CarPaint::TailLight)
    ];
    assert(layout@ =~= obstacle_car_layout());
    let mut pixels: Vec<ArtPixel> = Vec::new();
    let mut i: usize = 0;
    while i < 37
        invariant
            i <= 37,
            layout@ == obstacle_car_layout(),
            pixels@.len() == i,
            forall|j: int| 0 <= j < i ==> #[trigger] pixels@[j] == art_pixel(obstacle_car_layout()[j], car),
        decreases 37 - i,
    {
        let (x, y, paint) = layout[i];
        let (r, g, b, a) = paint_color(paint, car);
        pixels.push(ArtPixel { x, y, r, g, b, a });
        i = i + 1;
    }
    pixels
}

} // verus!
