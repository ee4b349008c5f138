//! The parameters of a window, and the builder that collects them.

use vstd::prelude::*;

verus! {

/// What a window is made with. The backend reads it once, when it builds the
/// window; later changes go through the setters of the application.
#[derive(Debug)]
pub struct WindowParameters {
    pub position: Option<(u32, u32)>,
    pub dimensions: Option<(u32, u32)>,
    pub resizable: bool,
    pub title: String,
}

/// The mathematical content of a window's parameters.
pub ghost struct WindowParametersView {
    pub position: Option<(u32, u32)>,
    pub dimensions: Option<(u32, u32)>,
    pub resizable: bool,
    pub title: Seq<char>,
}

impl View for WindowParameters {
    type V = WindowParametersView;

    open spec fn view(&self) -> WindowParametersView {
        WindowParametersView {
            position: self.position,
            dimensions: self.dimensions,
            resizable: self.resizable,
            title: self.title@,
        }
    }
}

impl WindowParametersView {
    /// A resizable window titled "Untitled", placed and sized by the
    /// platform.
    pub open spec fn initial() -> WindowParametersView {
        WindowParametersView {
            position: None,
            dimensions: None,
            resizable: true,
            title: "Untitled"@,
        }
    }
}

/// Collects the parameters of a window to be.
#[derive(Debug)]
pub struct WindowBuilder {
    window_parameters: WindowParameters,
}

impl View for WindowBuilder {
    type V = WindowParametersView;

    closed spec fn view(&self) -> WindowParametersView {
        self.window_parameters@
    }
}

impl WindowBuilder {
    pub fn new() -> (builder: Self)
        ensures
            builder@ == WindowParametersView::initial(),
    {
        WindowBuilder {
            window_parameters: WindowParameters {
                position: None,
                dimensions: None,
                resizable: true,
                title: "Untitled".to_owned(),
            },
        }
    }

    pub fn title(self, title: &str) -> (builder: Self)
        ensures
            builder@ == (WindowParametersView { title: title@, ..self@ }),
    {
        let WindowParameters { position, dimensions, resizable, title: _ } = self.window_parameters;
        WindowBuilder {
            window_parameters: WindowParameters {
                position,
                dimensions,
                resizable,
                title: title.to_owned(),
            },
        }
    }

    pub fn position(self, x: u32, y: u32) -> (builder: Self)
        ensures
            builder@ == (WindowParametersView { position: Some((x, y)), ..self@ }),
    {
        let mut builder = self;
        builder.window_parameters.position = Some((x, y));
        builder
    }

    pub fn dimensions(self, width: u32, height: u32) -> (builder: Self)
        ensures
            builder@ == (WindowParametersView { dimensions: Some((width, height)), ..self@ }),
    {
        let mut builder = self;
        builder.window_parameters.dimensions = Some((width, height));
        builder
    }

    pub fn resizable(self, resizable: bool) -> (builder: Self)
        ensures
            builder@ == (WindowParametersView { resizable, ..self@ }),
    {
        let mut builder = self;
        builder.window_parameters.resizable = resizable;
        builder
    }

    /// The parameters as collected, for the backend to build the window.
    pub fn build(self) -> (window_parameters: WindowParameters)
        ensures
            window_parameters@ == self@,
    {
        self.window_parameters
    }
}

} // verus!
