use vstd::prelude::*;

verus! {

/// The user interfaces that can be shown.
#[derive(Debug, Clone, Copy, PartialEq, Eq, Structural, Hash)]
pub enum UiType {
    /// Small debug FPS meter.
    Fps,
    /// Ui for the level editor.
    Editor,
    /// The paused menu.
    Paused,
    /// The main menu.
    MainMenu,
}

/// The loaded user interfaces, by kind.
pub struct UiHandles<H> {
    fps: Option<H>,
    editor: Option<H>,
    paused: Option<H>,
    main_menu: Option<H>,
}

impl<H> UiHandles<H> {
    /// The handle stored for a kind of user interface, if any.
    pub closed spec fn handle(&self, t: UiType) -> Option<H> {
        match t {
            UiType::Fps => self.fps,
            UiType::Editor => self.editor,
            UiType::Paused => self.paused,
            UiType::MainMenu => self.main_menu,
        }
    }

    pub fn new() -> (res: Self)
        ensures
            forall|t: UiType| #[trigger] res.handle(t) == None::<H>,
    {
        UiHandles { fps: None, editor: None, paused: None, main_menu: None }
    }

    /// Stores the handle for a kind of user interface, replacing the one stored before.
    pub fn put_handle(self, key: UiType, handle: H) -> (res: Self)
        ensures
            res.handle(key) == Some(handle),
            forall|t: UiType| t != key ==> #[trigger] res.handle(t) == self.handle(t),
    {
        let mut res = self;
        match key {
            UiType::Fps => res.fps = Some(handle),
            UiType::Editor => res.editor = Some(handle),
            UiType::Paused => res.paused = Some(handle),
            UiType::MainMenu => res.main_menu = Some(handle),
        }
        res
    }

    /// Whether a handle is stored for the kind of user interface.
    pub fn has_handle(&self, key: &UiType) -> (res: bool)
        ensures
            res == self.handle(*key) is Some,
    {
        match key {
            UiType::Fps => self.fps.is_some(),
            UiType::Editor => self.editor.is_some(),
            UiType::Paused => self.paused.is_some(),
            UiType::MainMenu => self.main_menu.is_some(),
        }
    }

    /// The handle of a kind of user interface that was loaded.
    pub fn get_handle(&self, key: &UiType) -> (res: &H)
        requires
            self.handle(*key) is Some,
        ensures
            Some(*res) == self.handle(*key),
    {
        let h = match key {
            UiType::Fps => self.fps.as_ref(),
            UiType::Editor => self.editor.as_ref(),
            UiType::Paused => self.paused.as_ref(),
            UiType::MainMenu => self.main_menu.as_ref(),
        };
        h.unwrap()
    }
}

} // verus!
