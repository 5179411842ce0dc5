use vstd::prelude::*;

use crate::error::AppError;

verus! {

/// A handler called with the shortcut's text when it is pressed or released.
pub type Callback = Box<dyn Fn(&str) + Send + Sync>;

/// The global-shortcut module's state: the application handle that
/// registers shortcuts, once known, and the press and release handlers.
pub struct ShortcutRegistry<H, C> {
    handle: Option<H>,
    callbacks: Option<(C, C)>,
}

/// A key event of the registered shortcut.
pub enum ShortcutPhase {
    Pressed,
    Released,
}

/// The message of the error for a shortcut module used before `init`.
pub open spec fn not_initialized_message() -> Seq<char> {
    "App handle not initialized. Call init() first."@
}

impl<H: Clone, C> ShortcutRegistry<H, C> {
    /// Whether `init` has given the application handle.
    pub closed spec fn is_initialized(&self) -> bool {
        self.handle is Some
    }

    /// The application handle, once given.
    pub closed spec fn spec_handle(&self) -> Option<H> {
        self.handle
    }

    /// The stored press and release handlers.
    pub closed spec fn spec_callbacks(&self) -> Option<(C, C)> {
        self.callbacks
    }

    /// Whether press and release handlers are stored.
    pub closed spec fn has_callbacks(&self) -> bool {
        self.callbacks is Some
    }

    /// A registry with no handle and no handlers.
    pub fn new() -> (r: Self)
        ensures
            !r.is_initialized(),
            !r.has_callbacks(),
    {
        ShortcutRegistry { handle: None, callbacks: None }
    }

    /// Keeps the application handle; must come before registering.
    pub fn init(&mut self, handle: H)
        ensures
            final(self).spec_handle() == Some(handle),
            final(self).is_initialized(),
            final(self).spec_callbacks() == old(self).spec_callbacks(),
    {
        self.handle = Some(handle);
    }

    fn handle_or_error(&self) -> (r: Result<H, AppError>)
        ensures
            r is Ok <==> self.is_initialized(),
            r matches Ok(h) ==> cloned::<H>(self.spec_handle().unwrap(), h),
            r matches Err(e) ==> e matches AppError::InputError(m) && m@
                == not_initialized_message(),
    {
        match &self.handle {
            Some(h) => Ok(h.clone()),
            None => Err(
                AppError::InputError(
                    String::from_str("App handle not initialized. Call init() first."),
                ),
            ),
        }
    }

    /// Stores the handlers and gives the handle to register the shortcut
    /// with. The handlers are stored even when the handle is missing, which
    /// is an error.
    pub fn register(&mut self, on_press: C, on_release: C) -> (r: Result<H, AppError>)
        ensures
            final(self).spec_callbacks() == Some((on_press, on_release)),
            final(self).spec_handle() == old(self).spec_handle(),
            final(self).is_initialized() == old(self).is_initialized(),
            r is Ok <==> old(self).is_initialized(),
            r matches Ok(h) ==> cloned::<H>(old(self).spec_handle().unwrap(), h),
            r matches Err(e) ==> e matches AppError::InputError(m) && m@
                == not_initialized_message(),
    {
        self.callbacks = Some((on_press, on_release));
        self.handle_or_error()
    }

    /// Drops the handlers and gives the handle to unregister all shortcuts
    /// with. The handlers are dropped even when the handle is missing, which
    /// is an error.
    pub fn unregister(&mut self) -> (r: Result<H, AppError>)
        ensures
            final(self).spec_callbacks() is None,
            final(self).spec_handle() == old(self).spec_handle(),
            final(self).is_initialized() == old(self).is_initialized(),
            r is Ok <==> old(self).is_initialized(),
            r matches Ok(h) ==> cloned::<H>(old(self).spec_handle().unwrap(), h),
            r matches Err(e) ==> e matches AppError::InputError(m) && m@
                == not_initialized_message(),
    {
        self.callbacks = None;
        self.handle_or_error()
    }

    /// The handler for `phase`, if handlers are stored.
    pub fn callback(&self, phase: ShortcutPhase) -> (r: Option<&C>)
        ensures
            match self.spec_callbacks() {
                Some(pair) => r == Some(if phase is Pressed { &pair.0 } else { &pair.1 }),
                None => r is None,
            },
    {
        match &self.callbacks {
            Some(pair) => match phase {
                ShortcutPhase::Pressed => Some(&pair.0),
                ShortcutPhase::Released => Some(&pair.1),
            },
            None => None,
        }
    }
}

/// The name of the event sent to the interface for `phase`.
pub fn event_name(phase: &ShortcutPhase) -> (n: &'static str)
    ensures
        phase is Pressed ==> n@ == "shortcut-pressed"@,
        phase is Released ==> n@ == "shortcut-released"@,
{
    match phase {
        ShortcutPhase::Pressed => "shortcut-pressed",
        ShortcutPhase::Released => "shortcut-released",
    }
}

/// The error for a shortcut that could not be registered.
pub fn register_error(shortcut: &str, detail: &str) -> (e: AppError)
    ensures
        e matches AppError::InputError(m) && m@ == "Failed to register shortcut '"@ + shortcut@
            + "': "@ + detail@,
{
    AppError::InputError(
        String::from_str("Failed to register shortcut '").concat(shortcut).concat("': ").concat(
            detail,
        ),
    )
}

/// The error for shortcuts that could not be unregistered.
pub fn unregister_error(detail: &str) -> (e: AppError)
    ensures
        e matches AppError::InputError(m) && m@ == "Failed to unregister shortcuts: "@ + detail@,
{
    AppError::InputError(String::from_str("Failed to unregister shortcuts: ").concat(detail))
}

} // verus!
