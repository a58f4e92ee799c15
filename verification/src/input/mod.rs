pub mod hit;

pub use hit::{hit_test, HitArea, HitTarget, Rect};
