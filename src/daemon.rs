//! The daemon's decisions: what each event does to its state and what the
//! loop around it must then carry out.

use rand::rngs::SmallRng;
use vstd::prelude::*;

use crate::commands::{CommandView, Commands};
use crate::config::{duration_of, offered_flavours, wave_bounds, Config, Transition};
use crate::dirs::{plan_category_link, CategoryLink};
use crate::queue::{advanced, sorted_paths, Queue, WalkEntry, rotation_paths};
use crate::text::relative_to;
use crate::transition::{
    between, common_args, draw_transition, needs_scaled_duration, new_rng, scales_duration, style_args, transition_args, TransitionDraw, FULL_TURN,
};

verus! {

/// What the control loop received.
#[derive(Debug)]
pub enum Event {
    Command(Commands),
    /// The rotation interval passed without a command.
    Timeout,
    /// Every sender of commands is gone.
    Disconnected,
}

/// What the control loop must do next.
#[derive(Debug)]
pub enum Decision {
    Nothing,
    /// Move through the queue and set the wallpaper found there.
    Advance { forward: bool },
    /// Link the current wallpaper into the named category.
    Categorise(String),
    /// Read the configuration again and replace it.
    Reload,
    /// Leave the loop.
    Stop,
}

/// The daemon: its queue, configuration, pause flag and random generator.
#[derive(Debug)]
pub struct Daemon {
    pub config: Config,
    pub paused: bool,
    pub queue: Queue,
    pub rng: SmallRng,
}

impl Daemon {
    /// A running daemon over a walk of the configured wallpaper tree.
    pub fn new(config: Config, walk: &Vec<WalkEntry>) -> (r: Daemon)
        ensures
            r.config == config,
            !r.paused,
            r.queue.wf(),
            r.queue.position() == 0,
            r.queue.entries().map_values(|p: String| p@) == rotation_paths(
                config.wallpaper_path_spec(),
                walk@,
            ),
    {
        let root = config.wallpaper_path();
        let queue = Queue::new(root.as_str(), walk);
        Daemon { config, paused: false, queue, rng: new_rng() }
    }

    /// Orders the queue as configured (shuffled or sorted, from the first
    /// entry) and returns the wallpaper to show first.
    pub fn prepare(&mut self) -> (r: Option<String>)
        requires
            old(self).queue.wf(),
        ensures
            final(self).queue.wf(),
            final(self).config == old(self).config,
            final(self).paused == old(self).paused,
            final(self).queue.position() == 0,
            final(self).queue.entries().to_multiset() == old(self).queue.entries().to_multiset(),
            !old(self).config.shuffle_spec() ==> sorted_paths(final(self).queue.entries()),
            final(self).queue.entries().len() == 0 ==> r is None,
            final(self).queue.entries().len() > 0 ==> (r matches Some(p) && p@
                == final(self).queue.entries()[0]@),
    {
        if self.config.shuffle() {
            self.queue.shuffle();
        } else {
            self.queue.sort();
        }
        proof {
            self.queue.entries().to_multiset_ensures();
            old(self).queue.entries().to_multiset_ensures();
        }
        match self.queue.get_current() {
            Some(p) => Some(p.clone()),
            None => None,
        }
    }

    /// Seconds to wait for a command before rotating.
    pub fn interval(&self) -> (r: u64)
        ensures
            r == self.config.interval_spec(),
    {
        self.config.interval()
    }

    /// Applies an event to the pause flag and says what the loop must do.
    pub fn handle(&mut self, event: Event) -> (r: Decision)
        ensures
            final(self).config == old(self).config,
            final(self).queue == old(self).queue,
            match event {
                Event::Timeout => final(self).paused == old(self).paused && if old(self).paused {
                    r is Nothing
                } else {
                    r == (Decision::Advance { forward: true })
                },
                Event::Disconnected => final(self).paused == old(self).paused && r is Stop,
                Event::Command(c) => match c@ {
                    CommandView::Next => final(self).paused == old(self).paused && r == (
                    Decision::Advance { forward: true }),
                    CommandView::Previous => final(self).paused == old(self).paused && r == (
                    Decision::Advance { forward: false }),
                    CommandView::Pause => final(self).paused && r is Nothing,
                    CommandView::Resume => !final(self).paused && r is Nothing,
                    CommandView::Categorise(s) => final(self).paused == old(self).paused && (
                    r matches Decision::Categorise(t) && t@ == s),
                    CommandView::Reload => final(self).paused == old(self).paused && r is Reload,
                    CommandView::Shutdown => final(self).paused == old(self).paused && r is Stop,
                    CommandView::Config => final(self).paused == old(self).paused && r is Nothing,
                },
            },
    {
        match event {
            Event::Timeout => {
                if self.paused {
                    Decision::Nothing
                } else {
                    Decision::Advance { forward: true }
                }
            },
            Event::Disconnected => Decision::Stop,
            Event::Command(c) => match c {
                Commands::Next => Decision::Advance { forward: true },
                Commands::Previous => Decision::Advance { forward: false },
                Commands::Pause => {
                    self.paused = true;
                    Decision::Nothing
                },
                Commands::Resume => {
                    self.paused = false;
                    Decision::Nothing
                },
                Commands::Categorise { category } => Decision::Categorise(category),
                Commands::Reload => Decision::Reload,
                Commands::Shutdown => Decision::Stop,
                Commands::Config => Decision::Nothing,
            },
        }
    }

    /// Moves through the queue as `Queue::advance` does, `alive[p]` telling
    /// whether the file at position `p` still exists, and returns the
    /// wallpaper to set; `None` when no entry is left.
    pub fn advance(&mut self, forward: bool, alive: &Vec<bool>) -> (r: Option<String>)
        requires
            old(self).queue.wf(),
            alive@.len() == old(self).queue.entries().len(),
        ensures
            final(self).queue.wf(),
            final(self).config == old(self).config,
            final(self).paused == old(self).paused,
            advanced(old(self).queue.entries(), old(self).queue.position(), alive@, forward) == (
                final(self).queue.entries(),
                final(self).queue.position(),
                r is Some,
            ),
            r matches Some(p) ==> p@ == final(self).queue.entries()[final(self).queue.position()]@,
    {
        if self.queue.advance(forward, alive) {
            match self.queue.get_current() {
                Some(p) => Some(p.clone()),
                None => None,
            }
        } else {
            None
        }
    }

    /// The link that categorising the current wallpaper takes; `None` when
    /// the queue is empty or the wallpaper does not lie below the root.
    pub fn plan_category(&self, category: &str) -> (r: Option<CategoryLink>)
        requires
            self.queue.wf(),
        ensures
            self.queue.entries().len() == 0 ==> r is None,
            self.queue.entries().len() > 0 ==> (r is Some <==> relative_to(
                self.config.wallpaper_path_spec(),
                self.queue.entries()[self.queue.position()]@,
            ) is Some),
            r matches Some(l) ==> l.target@ == self.queue.entries()[self.queue.position()]@,
    {
        match self.queue.get_current() {
            None => None,
            Some(current) => {
                let root = self.config.wallpaper_path();
                plan_category_link(root.as_str(), current.as_str(), category)
            },
        }
    }

    /// Replaces the configuration wholesale.
    pub fn replace_config(&mut self, config: Config)
        ensures
            final(self).config == config,
            final(self).paused == old(self).paused,
            final(self).queue == old(self).queue,
    {
        self.config = config;
    }

    /// Draws the random choices of the next rotation.
    pub fn draw_transition(&mut self) -> (r: TransitionDraw)
        ensures
            final(self).config == old(self).config,
            final(self).paused == old(self).paused,
            final(self).queue == old(self).queue,
            r.angle < FULL_TURN,
            offered_flavours(old(self).config.transition).contains(r.flavour),
            between(
                r.wave.width,
                wave_bounds(old(self).config.transition).0,
                wave_bounds(old(self).config.transition).1,
            ),
            between(
                r.wave.height,
                wave_bounds(old(self).config.transition).2,
                wave_bounds(old(self).config.transition).3,
            ),
            r.pos.x <= 1000,
            r.pos.y <= 1000,
    {
        match &self.config.transition {
            Some(t) => draw_transition(&mut self.rng, t),
            None => {
                let t = Transition::defaults();
                draw_transition(&mut self.rng, &t)
            },
        }
    }

    /// The configured base duration of a transition, in milliseconds.
    pub fn base_duration(&self) -> (r: u64)
        ensures
            r == duration_of(self.config.transition),
    {
        match &self.config.transition {
            Some(t) => t.duration(),
            None => crate::config::DEFAULT_DURATION,
        }
    }

    /// Whether the drawn transition's duration is to be scaled to the screen.
    pub fn needs_scaled_duration(&self, d: &TransitionDraw) -> (r: bool)
        ensures
            r == scales_duration(self.config.transition, *d),
    {
        match &self.config.transition {
            Some(t) => needs_scaled_duration(t, d),
            None => {
                let t = Transition::defaults();
                needs_scaled_duration(&t, d)
            },
        }
    }

    /// The setter's arguments for the drawn transition and settled duration.
    pub fn transition_args(&self, d: &TransitionDraw, duration: u64) -> (r: Vec<String>)
        requires
            d.angle < FULL_TURN,
        ensures
            r@.map_values(|a: String| a@) == common_args(self.config.transition, *d, duration)
                + style_args(*d),
    {
        match &self.config.transition {
            Some(t) => transition_args(t, d, duration),
            None => {
                let t = Transition::defaults();
                transition_args(&t, d, duration)
            },
        }
    }
}

} // verus!
