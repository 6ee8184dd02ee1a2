use vstd::prelude::*;

use crate::frontend::{Event, Frontend, ICanvas, IEventFetcher};

verus! {

/// A frontend that draws nowhere and never reports events.
pub struct DummyFrontend {}

pub struct DummyFrontendCanvas {}

pub struct DummyFrontendEventFetcher {}

impl DummyFrontend {
    pub fn new() -> (r: Frontend<DummyFrontendCanvas, DummyFrontendEventFetcher>)
        ensures
            r.pending_events() == Seq::<Event>::empty(),
    {
        let canvas = DummyFrontendCanvas {  };
        let event_fetcher = DummyFrontendEventFetcher {  };
        Frontend::new(canvas, event_fetcher)
    }
}

impl ICanvas for DummyFrontendCanvas {
    fn clear(&mut self) {
    }

    fn set_draw_color(&mut self, _r: u8, _g: u8, _b: u8) {
    }

    fn fill_rect(&mut self, _x: i32, _y: i32, _width: u32, _height: u32) {
    }

    fn present(&mut self) -> Result<(), String> {
        Ok(())
    }
}

impl IEventFetcher for DummyFrontendEventFetcher {
    fn fetch_events(&mut self) -> Vec<Event> {
        Vec::new()
    }
}

} // verus!
