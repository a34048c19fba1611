//! Coordinate normalizer: a one-shot, idempotent transform that makes world
//! coordinates read as "distance from the top-left of the window".
//!
//! The host engine's native convention puts the origin at the viewport
//! center with sprites anchored at their geometric center. The target
//! convention, familiar from legacy 2D engines, puts the origin at the
//! top-left of the viewport with sprites anchored at their top-left corner.
//! Two independent passes reconcile the two: the camera pass translates the
//! camera once, and the sprite pass sets the anchor of every new sprite. A
//! processed marker on each entity guarantees that neither pass ever touches
//! an entity twice.

use vstd::prelude::*;

verus! {

/// Pixel dimensions of the primary viewport.
#[derive(Clone, Copy, Debug, PartialEq, Eq, Structural)]
pub struct Viewport {
    pub width: u32,
    pub height: u32,
}

/// The reference point within a sprite's bounding box used to position it.
#[derive(Clone, Copy, Debug, PartialEq, Eq, Structural)]
pub enum SpriteAnchor {
    /// The engine's native default: the geometric center of the sprite.
    Center,
    /// The target convention: the sprite's top-left corner.
    TopLeft,
}

/// A renderable entity as the normalizer sees it: its anchor and whether
/// the sprite pass has already handled it.
#[derive(Clone, Copy, Debug, PartialEq, Eq, Structural)]
pub struct VisualElement {
    pub anchor: SpriteAnchor,
    pub processed: bool,
}

/// The active 2D camera: its position in pixels and whether the camera pass
/// has already handled it.
#[derive(Clone, Copy, Debug, PartialEq, Eq, Structural)]
pub struct CameraAnchor {
    pub x: i32,
    pub y: i32,
    pub processed: bool,
}

/// The one unrecoverable failure: the camera needs normalizing but no
/// primary viewport exists to measure, so startup cannot proceed.
#[derive(Clone, Copy, Debug, PartialEq, Eq, Structural)]
pub enum NormalizeError {
    MissingViewport,
}

impl VisualElement {
    /// A freshly spawned sprite: native center anchor, not yet processed.
    pub fn new() -> (s: VisualElement)
        ensures
            s == (VisualElement { anchor: SpriteAnchor::Center, processed: false }),
    {
        VisualElement { anchor: SpriteAnchor::Center, processed: false }
    }
}

impl CameraAnchor {
    /// The camera as the engine spawns it: at the native origin, not yet
    /// processed.
    pub fn new() -> (c: CameraAnchor)
        ensures
            c == (CameraAnchor { x: 0, y: 0, processed: false }),
    {
        CameraAnchor { x: 0, y: 0, processed: false }
    }
}

/// The camera after one camera pass: untouched when already processed;
/// untouched when unprocessed but no viewport exists; otherwise translated
/// by minus half the viewport's width and height and marked processed.
pub open spec fn camera_after_pass(camera: CameraAnchor, viewport: Option<Viewport>) -> CameraAnchor {
    if camera.processed {
        camera
    } else {
        match viewport {
            Option::None => camera,
            Option::Some(v) => CameraAnchor {
                x: (camera.x - (v.width / 2) as int) as i32,
                y: (camera.y - (v.height / 2) as int) as i32,
                processed: true,
            },
        }
    }
}

/// Whether one camera pass succeeds: it fails exactly when the camera still
/// needs normalizing and no viewport exists to measure.
pub open spec fn camera_pass_ok(camera: CameraAnchor, viewport: Option<Viewport>) -> bool {
    camera.processed || viewport is Some
}

/// One camera pass. Translates an unprocessed camera by negative half the
/// viewport's width and height, shifting the visible world so that the
/// point that was the viewport's top-left corner in the native centered
/// convention becomes the logical origin, and marks the camera processed so
/// the translation is never reapplied and can never accumulate drift. A
/// camera already processed is left alone, viewport or not. An unprocessed
/// camera with no primary viewport to measure is a fatal startup condition,
/// reported as `MissingViewport`.
pub fn camera_pass(camera: &mut CameraAnchor, viewport: Option<Viewport>) -> (r: Result<
    (),
    NormalizeError,
>)
    requires
        !old(camera).processed && viewport is Some ==> old(camera).x - (
        viewport->Some_0.width / 2) as int >= i32::MIN && old(camera).y - (
        viewport->Some_0.height / 2) as int >= i32::MIN,
    ensures
        *final(camera) == camera_after_pass(*old(camera), viewport),
        r is Ok <==> camera_pass_ok(*old(camera), viewport),
        r is Err ==> r == Result::<(), NormalizeError>::Err(NormalizeError::MissingViewport),
{
    if camera.processed {
        return Ok(());
    }
    match viewport {
        Option::None => Err(NormalizeError::MissingViewport),
        Option::Some(v) => {
            let half_w: u32 = v.width / 2;
            let half_h: u32 = v.height / 2;
            camera.x = camera.x - (half_w as i32);
            camera.y = camera.y - (half_h as i32);
            camera.processed = true;
            Ok(())
        },
    }
}

/// A sprite after the sprite pass has seen it: untouched when already
/// processed, else anchored at its top-left corner and marked processed.
pub open spec fn sprite_after_pass(s: VisualElement) -> VisualElement {
    if s.processed {
        s
    } else {
        VisualElement { anchor: SpriteAnchor::TopLeft, processed: true }
    }
}

/// One sprite pass over the scene's renderable entities. Every entity not
/// yet processed gets its anchor set to its top-left corner and its marker
/// set; entities already processed are not touched. Finding nothing to do
/// is the normal steady state, so the pass is safe to run every frame.
pub fn sprite_pass(sprites: &mut Vec<VisualElement>)
    ensures
        final(sprites)@.len() == old(sprites)@.len(),
        forall|i: int|
            0 <= i < old(sprites)@.len() ==> final(sprites)@[i] == sprite_after_pass(
                old(sprites)@[i],
            ),
{
    let mut idx: usize = 0;
    while idx < sprites.len()
        invariant
            idx <= sprites@.len(),
            sprites@.len() == old(sprites)@.len(),
            forall|i: int| 0 <= i < idx ==> sprites@[i] == sprite_after_pass(old(sprites)@[i]),
            forall|i: int| idx <= i < sprites@.len() ==> sprites@[i] == old(sprites)@[i],
        decreases sprites@.len() - idx,
    {
        if !sprites[idx].processed {
            sprites[idx].anchor = SpriteAnchor::TopLeft;
            sprites[idx].processed = true;
        }
        idx = idx + 1;
    }
}

/// One frame of the normalizer: the camera pass and the sprite pass, which
/// touch disjoint entities and so may run in either order. The result is
/// the camera pass's: `MissingViewport` exactly when an unprocessed camera
/// finds no viewport.
pub fn normalize_frame(
    camera: &mut CameraAnchor,
    sprites: &mut Vec<VisualElement>,
    viewport: Option<Viewport>,
) -> (r: Result<(), NormalizeError>)
    requires
        !old(camera).processed && viewport is Some ==> old(camera).x - (
        viewport->Some_0.width / 2) as int >= i32::MIN && old(camera).y - (
        viewport->Some_0.height / 2) as int >= i32::MIN,
    ensures
        *final(camera) == camera_after_pass(*old(camera), viewport),
        r is Ok <==> camera_pass_ok(*old(camera), viewport),
        r is Err ==> r == Result::<(), NormalizeError>::Err(NormalizeError::MissingViewport),
        final(sprites)@.len() == old(sprites)@.len(),
        forall|i: int|
            0 <= i < old(sprites)@.len() ==> final(sprites)@[i] == sprite_after_pass(
                old(sprites)@[i],
            ),
{
    let r = camera_pass(camera, viewport);
    sprite_pass(sprites);
    r
}

/// The camera pass is idempotent: applying it a second time leaves the
/// camera exactly where the first application put it, so the translation
/// can never accumulate. In particular a camera already marked processed is
/// never touched, and once a pass has succeeded every later pass succeeds.
pub proof fn lemma_camera_pass_idempotent(camera: CameraAnchor, viewport: Option<Viewport>)
    ensures
        camera_after_pass(camera_after_pass(camera, viewport), viewport) == camera_after_pass(
            camera,
            viewport,
        ),
        camera.processed ==> camera_after_pass(camera, viewport) == camera,
        camera_pass_ok(camera, viewport) ==> camera_pass_ok(
            camera_after_pass(camera, viewport),
            viewport,
        ),
{
}

/// The sprite pass handles each entity at most once: after one pass a
/// sprite is always marked processed with its anchor at its top-left corner
/// unless it already carried the marker, a marked sprite is never touched,
/// and a second pass changes nothing.
pub proof fn lemma_sprite_pass_idempotent(s: VisualElement)
    ensures
        sprite_after_pass(sprite_after_pass(s)) == sprite_after_pass(s),
        sprite_after_pass(s).processed,
        !s.processed ==> sprite_after_pass(s).anchor == SpriteAnchor::TopLeft,
        s.processed ==> sprite_after_pass(s) == s,
{
}

} // verus!
