use vstd::prelude::*;
use crate::level::{Level, level_rank};

verus! {

/// The stream a console appender logs to.
#[derive(Copy, Clone, Eq, PartialEq, Hash, Debug, Structural)]
pub enum Target {
    /// Standard output.
    Stdout,
    /// Standard error.
    Stderr,
}

/// The settings of a console appender before the output stream is opened:
/// everything the configuration decides, free of the terminal itself.
#[verifier::ext_equal]
pub struct BuilderModel {
    pub log_level: Level,
    pub target: Target,
    pub level_styles: Seq<(Level, u8)>,
    pub tty_only: bool,
}

/// A builder for console appenders.
#[derive(Debug, Clone, PartialEq)]
pub struct ConsoleAppenderBuilder {
    log_level: Level,
    target: Target,
    level_styles: Vec<(Level, u8)>,
    tty_only: bool,
}

impl View for ConsoleAppenderBuilder {
    type V = BuilderModel;

    closed spec fn view(&self) -> BuilderModel {
        BuilderModel {
            log_level: self.log_level,
            target: self.target,
            level_styles: self.level_styles@,
            tty_only: self.tty_only,
        }
    }
}

/// An appender which logs to a console stream, holding the decisions of when
/// to write and how to style each level; the stream itself stays with the
/// caller.
pub struct ConsoleAppender {
    pub log_level: Level,
    pub target: Target,
    pub level_styles: Vec<(Level, u8)>,
    pub is_tty: bool,
    pub do_write: bool,
}

/// The style assigned to a level: the last assignment wins, as repeated
/// assignments replace one another.
pub open spec fn spec_style_for(st: Seq<(Level, u8)>, l: Level) -> Option<u8>
    decreases st.len(),
{
    if st.len() == 0 {
        None
    } else if st.last().0 == l {
        Some(st.last().1)
    } else {
        spec_style_for(st.drop_last(), l)
    }
}

impl ConsoleAppender {
    /// Creates a new console appender builder, with the default level, the
    /// default target and no styles.
    pub fn builder() -> (b: ConsoleAppenderBuilder)
        ensures
            b@ == (BuilderModel {
                log_level: Level::Debug,
                target: Target::Stdout,
                level_styles: Seq::empty(),
                tty_only: false,
            }),
    {
        let b = ConsoleAppenderBuilder {
            log_level: Level::Debug,
            target: Target::Stdout,
            level_styles: Vec::new(),
            tty_only: false,
        };
        proof {
            assert(b@ =~= (BuilderModel {
                log_level: Level::Debug,
                target: Target::Stdout,
                level_styles: Seq::empty(),
                tty_only: false,
            }));
        }
        b
    }

    /// Whether a record of the given level is written at all: the appender
    /// must be allowed to write, and the level must pass the threshold.
    pub fn should_write(&self, level: Level) -> (r: bool)
        ensures
            r == (self.do_write && level_rank(level) <= level_rank(self.log_level)),
    {
        self.do_write && level.le(self.log_level)
    }

    /// The style a record of the given level is written with, if one was set.
    pub fn style_for(&self, level: Level) -> (r: Option<u8>)
        ensures
            r == spec_style_for(self.level_styles@, level),
    {
        let mut i: usize = self.level_styles.len();
        proof {
            assert(self.level_styles@.subrange(0, i as int) =~= self.level_styles@);
        }
        while i > 0
            invariant
                i <= self.level_styles@.len(),
                spec_style_for(self.level_styles@.subrange(0, i as int), level) == spec_style_for(
                    self.level_styles@,
                    level,
                ),
            decreases i,
        {
            let ghost before = self.level_styles@.subrange(0, i as int);
            i = i - 1;
            let (l, c) = self.level_styles[i];
            proof {
                assert(before.drop_last() =~= self.level_styles@.subrange(0, i as int));
            }
            if l == level {
                return Some(c);
            }
        }
        proof {
            assert(self.level_styles@.subrange(0, 0) =~= Seq::<(Level, u8)>::empty());
        }
        None
    }
}

impl ConsoleAppenderBuilder {
    /// Sets the minimum log level.
    pub fn log_level(self, level: Level) -> (b: Self)
        ensures
            b@ == (BuilderModel { log_level: level, ..self@ }),
    {
        let b = ConsoleAppenderBuilder { log_level: level, ..self };
        proof {
            assert(b@ =~= (BuilderModel { log_level: level, ..self@ }));
        }
        b
    }

    /// Sets the output stream to log to.
    pub fn target(self, target: Target) -> (b: Self)
        ensures
            b@ == (BuilderModel { target, ..self@ }),
    {
        let b = ConsoleAppenderBuilder { target, ..self };
        proof {
            assert(b@ =~= (BuilderModel { target, ..self@ }));
        }
        b
    }

    /// Sets the output to log only when the stream is a terminal.
    pub fn tty_only(self, tty_only: bool) -> (b: Self)
        ensures
            b@ == (BuilderModel { tty_only, ..self@ }),
    {
        let b = ConsoleAppenderBuilder { tty_only, ..self };
        proof {
            assert(b@ =~= (BuilderModel { tty_only, ..self@ }));
        }
        b
    }

    /// Assigns a style to a level; a later assignment to the same level
    /// wins.
    pub fn set_level_style(self, level: Level, color: u8) -> (b: Self)
        ensures
            b@ == (BuilderModel { level_styles: self@.level_styles.push((level, color)), ..self@ }),
    {
        let ghost before = self@;
        let mut b = self;
        b.level_styles.push((level, color));
        proof {
            assert(b@ =~= (BuilderModel {
                level_styles: before.level_styles.push((level, color)),
                ..before
            }));
        }
        b
    }

    /// Consumes the builder, producing a console appender; whether the
    /// chosen stream is a terminal is observed by the caller and passed in,
    /// and decides, together with the terminal-only setting, whether the
    /// appender writes at all.
    pub fn build(self, is_tty: bool) -> (a: ConsoleAppender)
        ensures
            a.log_level == self@.log_level,
            a.target == self@.target,
            a.level_styles@ == self@.level_styles,
            a.is_tty == is_tty,
            a.do_write == (is_tty || !self@.tty_only),
    {
        ConsoleAppender {
            log_level: self.log_level,
            target: self.target,
            level_styles: self.level_styles,
            is_tty,
            do_write: is_tty || !self.tty_only,
        }
    }

    /// The configured threshold.
    pub fn get_log_level(&self) -> (r: Level)
        ensures
            r == self@.log_level,
    {
        self.log_level
    }

    /// The configured stream.
    pub fn get_target(&self) -> (r: Target)
        ensures
            r == self@.target,
    {
        self.target
    }

    /// The styles assigned so far, in assignment order.
    pub fn get_level_styles(&self) -> (r: &Vec<(Level, u8)>)
        ensures
            r@ == self@.level_styles,
    {
        &self.level_styles
    }
}

} // verus!
