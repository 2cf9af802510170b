//! The chosen input directory and output file, with a copy shared with
//! whoever persists them once the session ends.
use std::sync::Arc;
use std::sync::Mutex;
use vstd::prelude::*;

verus! {

#[verifier::external_type_specification]
#[verifier::external_body]
#[verifier::reject_recursive_types(T)]
pub struct ExMutex<T: ?Sized>(Mutex<T>);

/// The paths as they are persisted.
#[derive(Clone, Default)]
pub struct AppState {
    pub input_dir: String,
    pub output_file: String,
}

/// The session's paths, and the shared copy of them.
pub struct App {
    pub input_dir: String,
    pub output_file: String,
    pub shared_state: Arc<Mutex<AppState>>,
}

/// Relies on `Mutex::new`: a mutex that holds the given state.
#[verifier::external_body]
fn new_mutex(state: AppState) -> (r: Mutex<AppState>) {
    Mutex::new(state)
}

/// Relies on `Mutex::lock`: replaces the shared state, unless the mutex is
/// poisoned.
#[verifier::external_body]
fn store_state(shared: &Mutex<AppState>, new_state: AppState) {
    if let Ok(mut state) = shared.lock() {
        *state = new_state;
    }
}

impl App {
    /// A session with the given paths, and the state it shares.
    pub fn new(input_dir: String, output_file: String) -> (r: (App, Arc<Mutex<AppState>>))
        ensures
            r.0.input_dir@ == input_dir@,
            r.0.output_file@ == output_file@,
    {
        let shared_state = Arc::new(
            new_mutex(AppState { input_dir: input_dir.clone(), output_file: output_file.clone() }),
        );
        let app = App { input_dir, output_file, shared_state: shared_state.clone() };
        (app, shared_state)
    }

    /// Sets the input directory, here and in the shared state.
    pub fn update_input_dir(&mut self, new_dir: String)
        ensures
            final(self).input_dir@ == new_dir@,
            final(self).output_file@ == old(self).output_file@,
    {
        self.input_dir = new_dir;
        store_state(
            &self.shared_state,
            AppState { input_dir: self.input_dir.clone(), output_file: self.output_file.clone() },
        );
    }

    /// Sets the output file, here and in the shared state.
    pub fn update_output_file(&mut self, new_file: String)
        ensures
            final(self).output_file@ == new_file@,
            final(self).input_dir@ == old(self).input_dir@,
    {
        self.output_file = new_file;
        store_state(
            &self.shared_state,
            AppState { input_dir: self.input_dir.clone(), output_file: self.output_file.clone() },
        );
    }
}

} // verus!
