use vstd::prelude::*;

use crate::cpu::{CPU, CPURunEnvironment, CpuState, initial_state, frame_spec};
use crate::frontend::{Event, Frontend, ICanvas, IEventFetcher, latches_after_all, with_latches};

verus! {

/// A machine together with the frontend that shows its screen and feeds its inputs.
pub struct System<C, E> {
    cpu: (CPU, CPURunEnvironment),
    frontend: Frontend<C, E>,
}

impl<C: ICanvas, E: IEventFetcher> System<C, E> {
    pub closed spec fn wf(&self) -> bool {
        self.cpu.0.wf() && self.cpu.1.wf()
    }

    /// The state of the machine.
    pub closed spec fn machine(&self) -> CpuState {
        self.cpu.0@
    }

    /// Events handed in by `notify` and not applied yet.
    pub closed spec fn pending_events(&self) -> Seq<Event> {
        self.frontend.pending_events()
    }

    /// A system whose machine starts with `rom_bytes` in memory.
    pub fn new(rom_bytes: &[u8], frontend: Frontend<C, E>) -> (r: System<C, E>)
        ensures
            r.wf(),
            r.machine() == initial_state(rom_bytes@),
            r.pending_events() == frontend.pending_events(),
    {
        System { cpu: CPU::new(rom_bytes), frontend }
    }

    /// Runs one frame, draws the screen, then applies the pending events and those the
    /// event source reports to the input latches. When the canvas fails to present, its
    /// error is returned and no events are applied.
    pub fn render_next_frame(&mut self) -> (r: Result<(), String>)
        requires
            old(self).wf(),
        ensures
            final(self).wf(),
            r is Ok ==> final(self).pending_events() == Seq::<Event>::empty(),
            r is Ok ==> exists|fetched: Seq<Event>|
                final(self).machine() == with_latches(
                    frame_spec(old(self).machine()),
                    latches_after_all(
                        (
                            frame_spec(old(self).machine()).in1,
                            frame_spec(old(self).machine()).in2,
                        ),
                        #[trigger] (old(self).pending_events() + fetched),
                    ),
                ),
            r is Err ==> final(self).machine() == frame_spec(old(self).machine()),
            r is Err ==> final(self).pending_events() == old(self).pending_events(),
    {
        let ghost pending = self.pending_events();
        self.cpu.0.run_until_next_frame(&self.cpu.1);
        let ghost framed = self.cpu.0@;
        let rendered = self.frontend.render_frame(&self.cpu.0.ram);
        match rendered {
            Ok(()) => {
                self.frontend.handle_events(&mut self.cpu.0);
                proof {
                    let fetched = choose|fetched: Seq<Event>|
                        self.cpu.0@ == with_latches(
                            framed,
                            latches_after_all(
                                (framed.in1, framed.in2),
                                #[trigger] (pending + fetched),
                            ),
                        );
                    assert(self.machine() == with_latches(
                        framed,
                        latches_after_all((framed.in1, framed.in2), pending + fetched),
                    ));
                }
                Ok(())
            },
            Err(message) => Err(message),
        }
    }

    /// Keeps `event` to be applied after the next frame.
    pub fn notify(&mut self, event: Event)
        ensures
            final(self).wf() == old(self).wf(),
            final(self).machine() == old(self).machine(),
            final(self).pending_events() == old(self).pending_events().push(event),
    {
        self.frontend.notify(event);
    }

    /// The machine, for reading its registers, latches and memory.
    pub fn cpu(&self) -> (r: &CPU)
        ensures
            r@ == self.machine(),
    {
        &self.cpu.0
    }
}

} // verus!
