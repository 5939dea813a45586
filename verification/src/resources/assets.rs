use crate::components::movement::Pos;
use vstd::prelude::*;

verus! {

/// A graphical asset of a tile.
#[derive(Debug, Clone, Copy, PartialEq, Eq, Structural)]
pub enum AssetType {
    /// A static, non-animated image: the sprite sheet and the number of the sprite on it.
    Still(SpriteType, usize),
    /// An animated image.
    Animated(AnimType),
}

#[derive(Debug, Clone, Copy, PartialEq, Eq, Structural, Hash)]
pub enum SpriteType {
    /// This is the fallback sprite to use if the desired sprite cannot be found.
    NotFound,
    Background,
    Frame,
    Blocks,
}

#[derive(Debug, Clone, Copy, PartialEq, Eq, Structural, Hash)]
pub enum AnimType {
    /// The fallback animated asset to use if the desired asset could not be found.
    NotFound,
    Mob,
}

/// Width and height in pixels of each asset.
pub open spec fn spec_asset_dimensions(asset: AssetType) -> (int, int) {
    match asset {
        AssetType::Still(sprite_type, _) => match sprite_type {
            SpriteType::NotFound => (128, 128),
            SpriteType::Background => (2449, 1632),
            SpriteType::Frame => (50, 50),
            SpriteType::Blocks => (128, 128),
        },
        AssetType::Animated(anim_type) => match anim_type {
            AnimType::NotFound => (128, 128),
            AnimType::Mob => (32, 32),
        },
    }
}

/// Matches a still or animated asset to its dimensions in pixels. Required to calculate the
/// correct scale factor for the entity to make it fit within its in-world bounds.
pub fn get_asset_dimensions(asset: &AssetType) -> (res: Pos)
    ensures
        (res.x as int, res.y as int) == spec_asset_dimensions(*asset),
{
    match asset {
        AssetType::Still(sprite_type, _) => match sprite_type {
            SpriteType::NotFound => Pos::new(128, 128),
            SpriteType::Background => Pos::new(2449, 1632),
            SpriteType::Frame => Pos::new(50, 50),
            SpriteType::Blocks => Pos::new(128, 128),
        },
        AssetType::Animated(anim_type) => match anim_type {
            AnimType::NotFound => Pos::new(128, 128),
            AnimType::Mob => Pos::new(32, 32),
        },
    }
}

/// The loaded assets: a sprite sheet for each kind of still sprite, and an animation for
/// each kind of animated sprite. Missing assets are replaced by the NotFound ones.
pub struct Assets<S, A> {
    not_found_still: Option<S>,
    background: Option<S>,
    frame: Option<S>,
    blocks: Option<S>,
    not_found_anim: Option<A>,
    mob: Option<A>,
}

impl<S, A> Assets<S, A> {
    /// The sprite sheet stored for a kind of sprite, if any.
    pub closed spec fn still(&self, t: SpriteType) -> Option<S> {
        match t {
            SpriteType::NotFound => self.not_found_still,
            SpriteType::Background => self.background,
            SpriteType::Frame => self.frame,
            SpriteType::Blocks => self.blocks,
        }
    }

    /// The animation stored for a kind of animated sprite, if any.
    pub closed spec fn animated(&self, t: AnimType) -> Option<A> {
        match t {
            AnimType::NotFound => self.not_found_anim,
            AnimType::Mob => self.mob,
        }
    }

    pub fn new() -> (res: Self)
        ensures
            forall|t: SpriteType| #[trigger] res.still(t) == None::<S>,
            forall|t: AnimType| #[trigger] res.animated(t) == None::<A>,
    {
        Assets {
            not_found_still: None,
            background: None,
            frame: None,
            blocks: None,
            not_found_anim: None,
            mob: None,
        }
    }

    pub fn put_still(&mut self, asset_type: SpriteType, asset: S)
        ensures
            final(self).still(asset_type) == Some(asset),
            forall|t: SpriteType| t != asset_type ==> #[trigger] final(self).still(t) == old(self).still(t),
            forall|t: AnimType| #[trigger] final(self).animated(t) == old(self).animated(t),
    {
        match asset_type {
            SpriteType::NotFound => self.not_found_still = Some(asset),
            SpriteType::Background => self.background = Some(asset),
            SpriteType::Frame => self.frame = Some(asset),
            SpriteType::Blocks => self.blocks = Some(asset),
        }
    }

    pub fn put_animated(&mut self, asset_type: AnimType, asset: A)
        ensures
            final(self).animated(asset_type) == Some(asset),
            forall|t: AnimType| t != asset_type ==> #[trigger] final(self).animated(t) == old(self).animated(t),
            forall|t: SpriteType| #[trigger] final(self).still(t) == old(self).still(t),
    {
        match asset_type {
            AnimType::NotFound => self.not_found_anim = Some(asset),
            AnimType::Mob => self.mob = Some(asset),
        }
    }

    fn still_ref(&self, asset_type: &SpriteType) -> (res: Option<&S>)
        ensures
            match res {
                Some(r) => self.still(*asset_type) == Some(*r),
                None => self.still(*asset_type) is None,
            },
    {
        match asset_type {
            SpriteType::NotFound => self.not_found_still.as_ref(),
            SpriteType::Background => self.background.as_ref(),
            SpriteType::Frame => self.frame.as_ref(),
            SpriteType::Blocks => self.blocks.as_ref(),
        }
    }

    fn animated_ref(&self, asset_type: &AnimType) -> (res: Option<&A>)
        ensures
            match res {
                Some(r) => self.animated(*asset_type) == Some(*r),
                None => self.animated(*asset_type) is None,
            },
    {
        match asset_type {
            AnimType::NotFound => self.not_found_anim.as_ref(),
            AnimType::Mob => self.mob.as_ref(),
        }
    }

    /// Whether a sprite sheet is stored for the kind of sprite.
    pub fn has_still(&self, asset_type: &SpriteType) -> (res: bool)
        ensures
            res == self.still(*asset_type) is Some,
    {
        self.still_ref(asset_type).is_some()
    }

    /// Whether an animation is stored for the kind of animated sprite.
    pub fn has_animated(&self, asset_type: &AnimType) -> (res: bool)
        ensures
            res == self.animated(*asset_type) is Some,
    {
        self.animated_ref(asset_type).is_some()
    }

    /// The sprite sheet of a kind of sprite, or the NotFound one when it is missing.
    pub fn get_still(&self, asset_type: &SpriteType) -> (res: &S)
        requires
            self.still(*asset_type) is Some || self.still(SpriteType::NotFound) is Some,
        ensures
            self.still(*asset_type) is Some ==> Some(*res) == self.still(*asset_type),
            self.still(*asset_type) is None ==> Some(*res) == self.still(SpriteType::NotFound),
    {
        match self.still_ref(asset_type) {
            Some(r) => r,
            None => self.still_ref(&SpriteType::NotFound).unwrap(),
        }
    }

    /// The animation of a kind of animated sprite, or the NotFound one when it is missing.
    pub fn get_animated(&self, asset_type: &AnimType) -> (res: &A)
        requires
            self.animated(*asset_type) is Some || self.animated(AnimType::NotFound) is Some,
        ensures
            self.animated(*asset_type) is Some ==> Some(*res) == self.animated(*asset_type),
            self.animated(*asset_type) is None ==> Some(*res) == self.animated(AnimType::NotFound),
    {
        match self.animated_ref(asset_type) {
            Some(r) => r,
            None => self.animated_ref(&AnimType::NotFound).unwrap(),
        }
    }
}

} // verus!
