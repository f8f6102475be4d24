use vstd::prelude::*;
use vstd::string::StringExecFns;
use crate::level::{Level, LevelFilter, spec_level_from_code};
use crate::log_configuration::{
    appender_str_to_hashmap, hashmap_to_appender, hashmap_to_logger, logger_str_to_hashmap,
    AppenderConfig, AppenderModel, ConfError, ConfMap, Logger, LoggerModel, ValModel,
    spec_appender_from_map, spec_appender_parse, spec_logger_from_map, spec_logger_parse,
};
use crate::text::{as_chars, chars_eq_str, str_eq};

verus! {

/// One entry of a configuration section, as the configuration store hands
/// it over: a compact text form, a keyed tree, or something else entirely,
/// which is passed over.
#[derive(Debug, Clone, PartialEq)]
pub enum SectionValue {
    Text(String),
    Tree(ConfMap),
    Other,
}

/// The mathematical shape of a section entry.
pub enum SectionModel {
    Text(Seq<char>),
    Tree(Seq<(Seq<char>, ValModel)>),
    Other,
}

impl View for SectionValue {
    type V = SectionModel;

    open spec fn view(&self) -> SectionModel {
        match self {
            SectionValue::Text(s) => SectionModel::Text(s@),
            SectionValue::Tree(m) => SectionModel::Tree(m@),
            SectionValue::Other => SectionModel::Other,
        }
    }
}

/// The view of a named section: names and entry shapes, in order.
pub open spec fn sections_view(s: Seq<(String, SectionValue)>) -> Seq<(Seq<char>, SectionModel)> {
    Seq::new(s.len(), |i: int| (s[i].0@, s[i].1@))
}

/// The view of the built appender list.
pub open spec fn apps_view(s: Seq<(String, AppenderConfig)>) -> Seq<(Seq<char>, AppenderModel)> {
    Seq::new(s.len(), |i: int| (s[i].0@, s[i].1@))
}

/// The view of the skipped-entry list: names and the messages that
/// rejected them.
pub open spec fn skips_view(s: Seq<(String, ConfError)>) -> Seq<(Seq<char>, Seq<char>)> {
    Seq::new(s.len(), |i: int| (s[i].0@, s[i].1@))
}

/// The view of the built logger list.
pub open spec fn logs_view(s: Seq<Logger>) -> Seq<LoggerModel> {
    Seq::new(s.len(), |i: int| s[i]@)
}

/// What one appender section entry yields: a built appender, a rejection,
/// or nothing for an entry of a shape the section ignores.
pub open spec fn spec_appender_outcome(v: SectionModel) -> Option<Result<AppenderModel, Seq<
    char,
>>> {
    match v {
        SectionModel::Text(s) => Some(
            match spec_appender_parse(s) {
                Ok(m) => spec_appender_from_map(m),
                Err(e) => Err(e),
            },
        ),
        SectionModel::Tree(m) => Some(spec_appender_from_map(m)),
        SectionModel::Other => None,
    }
}

/// The appenders and rejections an appender section yields from entry `i`
/// on, in order.
pub open spec fn build_appenders(es: Seq<(Seq<char>, SectionModel)>, i: int) -> (Seq<(
    Seq<char>,
    AppenderModel,
), >, Seq<(Seq<char>, Seq<char>)>)
    decreases es.len() - i,
{
    if i < 0 || i >= es.len() {
        (Seq::empty(), Seq::empty())
    } else {
        let rest = build_appenders(es, i + 1);
        match spec_appender_outcome(es[i].1) {
            None => rest,
            Some(o) => match o {
                Ok(a) => (seq![(es[i].0, a)] + rest.0, rest.1),
                Err(e) => (rest.0, seq![(es[i].0, e)] + rest.1),
            },
        }
    }
}

/// What one logger section entry yields.
pub open spec fn spec_logger_outcome(name: Seq<char>, v: SectionModel) -> Option<Result<
    LoggerModel,
    Seq<char>,
>> {
    match v {
        SectionModel::Text(s) => Some(
            match spec_logger_parse(s) {
                Ok(m) => spec_logger_from_map(name, m),
                Err(e) => Err(e),
            },
        ),
        SectionModel::Tree(m) => Some(spec_logger_from_map(name, m)),
        SectionModel::Other => None,
    }
}

/// The root of the logging tree: a threshold and the appenders it writes
/// to.
#[derive(Debug, Clone, PartialEq)]
pub struct RootConfig {
    pub level: LevelFilter,
    pub appenders: Vec<String>,
}

/// The mathematical shape of the root.
#[verifier::ext_equal]
pub struct RootModel {
    pub level: LevelFilter,
    pub appenders: Seq<Seq<char>>,
}

impl View for RootConfig {
    type V = RootModel;

    open spec fn view(&self) -> RootModel {
        RootModel {
            level: self.level,
            appenders: crate::log_configuration::list_view(self.appenders@),
        }
    }
}

/// The loggers, the chosen root and the rejections a logger section yields
/// from entry `i` on: the entry named for the root does not join the logger
/// list but becomes the root, a later one replacing an earlier one.
pub open spec fn build_loggers(es: Seq<(Seq<char>, SectionModel)>, i: int) -> (
    Seq<LoggerModel>,
    Option<RootModel>,
    Seq<(Seq<char>, Seq<char>)>,
)
    decreases es.len() - i,
{
    if i < 0 || i >= es.len() {
        (Seq::empty(), None, Seq::empty())
    } else {
        let rest = build_loggers(es, i + 1);
        match spec_logger_outcome(es[i].0, es[i].1) {
            None => rest,
            Some(o) => match o {
                Err(e) => (rest.0, rest.1, seq![(es[i].0, e)] + rest.2),
                Ok(lg) => if es[i].0 == "root"@ {
                    (
                        rest.0,
                        if rest.1 is Some {
                            rest.1
                        } else {
                            Some(RootModel { level: lg.level, appenders: lg.appenders })
                        },
                        rest.2,
                    )
                } else {
                    (seq![lg] + rest.0, rest.1, rest.2)
                },
            },
        }
    }
}

/// The root that is used: the chosen one, or the default threshold with no
/// appenders of its own.
pub open spec fn spec_root_of(o: Option<RootModel>) -> RootModel {
    match o {
        Some(r) => r,
        None => RootModel { level: LevelFilter::Warn, appenders: Seq::empty() },
    }
}

/// The mathematical shape of the assembled log manager.
#[verifier::ext_equal]
pub struct LogMgrModel {
    pub appenders: Seq<(Seq<char>, AppenderModel)>,
    pub loggers: Seq<LoggerModel>,
    pub root: RootModel,
    pub skipped: Seq<(Seq<char>, Seq<char>)>,
}

/// The assembled logging plan: every appender and logger the configuration
/// yielded, the chosen root, and the entries that were rejected, with their
/// messages, for the caller's diagnostics.
#[derive(Debug)]
pub struct LogMgr {
    pub appenders: Vec<(String, AppenderConfig)>,
    pub loggers: Vec<Logger>,
    pub root: RootConfig,
    pub skipped: Vec<(String, ConfError)>,
}

impl View for LogMgr {
    type V = LogMgrModel;

    open spec fn view(&self) -> LogMgrModel {
        LogMgrModel {
            appenders: apps_view(self.appenders@),
            loggers: logs_view(self.loggers@),
            root: self.root@,
            skipped: skips_view(self.skipped@),
        }
    }
}

impl LogMgr {
    /// Assembles the logging plan from the two configuration sections: each
    /// appender entry is parsed and built, each logger entry likewise, the
    /// entry named for the root becomes the root, and every rejected entry
    /// is kept aside with its message instead of stopping the others.
    pub fn new(
        appender_section: &Vec<(String, SectionValue)>,
        logger_section: &Vec<(String, SectionValue)>,
    ) -> (r: Self)
        ensures
            r@.appenders == build_appenders(sections_view(appender_section@), 0).0,
            r@.loggers == build_loggers(sections_view(logger_section@), 0).0,
            r@.root == spec_root_of(build_loggers(sections_view(logger_section@), 0).1),
            r@.skipped == build_appenders(sections_view(appender_section@), 0).1 + build_loggers(
                sections_view(logger_section@),
                0,
            ).2,
    {
        let ghost av = sections_view(appender_section@);
        let mut appenders: Vec<(String, AppenderConfig)> = Vec::new();
        let mut skipped: Vec<(String, ConfError)> = Vec::new();
        let mut i: usize = 0;
        proof {
            assert(apps_view(appenders@) + build_appenders(av, 0).0 =~= build_appenders(av, 0).0);
            assert(skips_view(skipped@) + build_appenders(av, 0).1 =~= build_appenders(av, 0).1);
        }
        while i < appender_section.len()
            invariant
                i <= appender_section@.len(),
                av == sections_view(appender_section@),
                av.len() == appender_section@.len(),
                apps_view(appenders@) + build_appenders(av, i as int).0 == build_appenders(
                    av,
                    0,
                ).0,
                skips_view(skipped@) + build_appenders(av, i as int).1 == build_appenders(
                    av,
                    0,
                ).1,
            decreases appender_section@.len() - i,
        {
            let ghost apps_before = apps_view(appenders@);
            let ghost skips_before = skips_view(skipped@);
            let entry = &appender_section[i];
            proof {
                assert(av[i as int] == (appender_section@[i as int].0@,
                    appender_section@[i as int].1@));
            }
            let outcome: Option<Result<AppenderConfig, ConfError>> = match &entry.1 {
                SectionValue::Text(s) => Some(
                    match appender_str_to_hashmap(s.as_str(), None) {
                        Ok(m) => hashmap_to_appender(&m),
                        Err(e) => Err(e),
                    },
                ),
                SectionValue::Tree(m) => Some(hashmap_to_appender(m)),
                SectionValue::Other => None,
            };
            match outcome {
                None => {
                },
                Some(o) => match o {
                    Ok(a) => {
                        let ghost am = a@;
                        appenders.push((entry.0.clone(), a));
                        proof {
                            assert(apps_view(appenders@) =~= apps_before.push(
                                (av[i as int].0, am),
                            ));
                            assert(apps_before + (seq![(av[i as int].0, am)] + build_appenders(
                                av,
                                i as int + 1,
                            ).0) =~= apps_view(appenders@) + build_appenders(av, i as int + 1).0);
                        }
                    },
                    Err(e) => {
                        let ghost em = e@;
                        skipped.push((entry.0.clone(), e));
                        proof {
                            assert(skips_view(skipped@) =~= skips_before.push(
                                (av[i as int].0, em),
                            ));
                            assert(skips_before + (seq![(av[i as int].0, em)] + build_appenders(
                                av,
                                i as int + 1,
                            ).1) =~= skips_view(skipped@) + build_appenders(av, i as int + 1).1);
                        }
                    },
                },
            }
            i = i + 1;
        }
        proof {
            assert(apps_view(appenders@) + build_appenders(av, i as int).0 =~= apps_view(
                appenders@,
            ));
            assert(skips_view(skipped@) + build_appenders(av, i as int).1 =~= skips_view(
                skipped@,
            ));
        }
        let ghost lv = sections_view(logger_section@);
        let ghost appender_skips = skips_view(skipped@);
        let mut loggers: Vec<Logger> = Vec::new();
        let mut logger_skips: Vec<(String, ConfError)> = Vec::new();
        let mut root: Option<RootConfig> = None;
        let mut j: usize = 0;
        proof {
            assert(logs_view(loggers@) + build_loggers(lv, 0).0 =~= build_loggers(lv, 0).0);
            assert(skips_view(logger_skips@) + build_loggers(lv, 0).2 =~= build_loggers(lv, 0).2);
        }
        while j < logger_section.len()
            invariant
                j <= logger_section@.len(),
                lv == sections_view(logger_section@),
                lv.len() == logger_section@.len(),
                logs_view(loggers@) + build_loggers(lv, j as int).0 == build_loggers(lv, 0).0,
                skips_view(logger_skips@) + build_loggers(lv, j as int).2 == build_loggers(
                    lv,
                    0,
                ).2,
                (match build_loggers(lv, j as int).1 {
                    Some(r) => Some(r),
                    None => match root {
                        Some(rc) => Some(rc@),
                        None => None,
                    },
                }) == build_loggers(lv, 0).1,
            decreases logger_section@.len() - j,
        {
            let ghost logs_before = logs_view(loggers@);
            let ghost skips_before = skips_view(logger_skips@);
            let entry = &logger_section[j];
            proof {
                assert(lv[j as int] == (logger_section@[j as int].0@,
                    logger_section@[j as int].1@));
                reveal_strlit("root");
            }
            let outcome: Option<Result<Logger, ConfError>> = match &entry.1 {
                SectionValue::Text(s) => Some(
                    match logger_str_to_hashmap(s.as_str(), None) {
                        Ok(m) => hashmap_to_logger(entry.0.as_str(), &m),
                        Err(e) => Err(e),
                    },
                ),
                SectionValue::Tree(m) => Some(hashmap_to_logger(entry.0.as_str(), m)),
                SectionValue::Other => None,
            };
            match outcome {
                None => {
                },
                Some(o) => match o {
                    Err(e) => {
                        let ghost em = e@;
                        logger_skips.push((entry.0.clone(), e));
                        proof {
                            assert(skips_view(logger_skips@) =~= skips_before.push(
                                (lv[j as int].0, em),
                            ));
                            assert(skips_before + (seq![(lv[j as int].0, em)] + build_loggers(
                                lv,
                                j as int + 1,
                            ).2) =~= skips_view(logger_skips@) + build_loggers(
                                lv,
                                j as int + 1,
                            ).2);
                        }
                    },
                    Ok(lg) => {
                        if str_eq(entry.0.as_str(), "root") {
                            root = Some(RootConfig { level: lg.level, appenders: lg.appenders });
                        } else {
                            let ghost lm = lg@;
                            loggers.push(lg);
                            proof {
                                assert(logs_view(loggers@) =~= logs_before.push(lm));
                                assert(logs_before + (seq![lm] + build_loggers(
                                    lv,
                                    j as int + 1,
                                ).0) =~= logs_view(loggers@) + build_loggers(
                                    lv,
                                    j as int + 1,
                                ).0);
                            }
                        }
                    },
                },
            }
            j = j + 1;
        }
        proof {
            assert(logs_view(loggers@) + build_loggers(lv, j as int).0 =~= logs_view(loggers@));
            assert(skips_view(logger_skips@) + build_loggers(lv, j as int).2 =~= skips_view(
                logger_skips@,
            ));
        }
        let root_config: RootConfig = match root {
            Some(rc) => rc,
            None => {
                let rc = RootConfig { level: LevelFilter::Warn, appenders: Vec::new() };
                proof {
                    assert(rc@ =~= (RootModel {
                        level: LevelFilter::Warn,
                        appenders: Seq::empty(),
                    }));
                }
                rc
            },
        };
        let mut all_skipped = skipped;
        let rest = logger_skips;
        let ghost rest_view = skips_view(rest@);
        let mut k: usize = 0;
        proof {
            assert(rest_view.subrange(0, 0) =~= Seq::<(Seq<char>, Seq<char>)>::empty());
            assert(appender_skips + rest_view.subrange(0, 0) =~= appender_skips);
        }
        while k < rest.len()
            invariant
                k <= rest@.len(),
                rest_view == skips_view(rest@),
                rest_view.len() == rest@.len(),
                skips_view(all_skipped@) == appender_skips + rest_view.subrange(0, k as int),
            decreases rest@.len() - k,
        {
            let ghost before = skips_view(all_skipped@);
            let item = rest[k].0.clone();
            let err = rest[k].1.duplicate();
            proof {
                assert(rest_view[k as int] == (rest@[k as int].0@, rest@[k as int].1@));
            }
            all_skipped.push((item, err));
            k = k + 1;
            proof {
                assert(skips_view(all_skipped@) =~= before.push(rest_view[k as int - 1]));
                assert(skips_view(all_skipped@) =~= appender_skips + rest_view.subrange(
                    0,
                    k as int,
                ));
            }
        }
        proof {
            assert(rest_view.subrange(0, k as int) =~= rest_view);
        }
        let r = LogMgr { appenders, loggers, root: root_config, skipped: all_skipped };
        proof {
            assert(r@.skipped =~= build_appenders(av, 0).1 + build_loggers(lv, 0).2);
        }
        r
    }
}

/// What writing a character of the target yields: a dot becomes the scoped
/// separator, anything else stays.
pub open spec fn spec_replace_dots(s: Seq<char>) -> Seq<char>
    decreases s.len(),
{
    if s.len() == 0 {
        Seq::empty()
    } else if s[0] == '.' {
        seq![':', ':'] + spec_replace_dots(s.drop_first())
    } else {
        seq![s[0]] + spec_replace_dots(s.drop_first())
    }
}

/// One write, as the write entry point would forward it: the decoded
/// level, the target with dots turned into scoped separators, the message,
/// and whether buffered output is flushed at once to show startup logs.
#[derive(Debug, Clone, PartialEq)]
pub struct WriteRequest {
    pub level: Level,
    pub target: String,
    pub message: String,
    pub flush: bool,
}

impl LogMgr {
    /// Decides what a write entry carries on: a code outside the five
    /// levels is dropped; otherwise the target's dots become scoped
    /// separators, and a write against the loading target flushes at once.
    #[allow(non_snake_case)]
    pub fn LogMgr_Write(&self, target: &str, level: u8, message: &str) -> (r: Option<
        WriteRequest,
    >)
        ensures
            match r {
                Some(w) => {
                    &&& spec_level_from_code(level) == Some(w.level)
                    &&& w.target@ == spec_replace_dots(target@)
                    &&& w.message@ == message@
                    &&& w.flush == (spec_replace_dots(target@) == "server::loading"@)
                },
                None => spec_level_from_code(level) is None,
            },
    {
        let lvl = match Level::from_code(level) {
            Some(l) => l,
            None => {
                return None;
            },
        };
        let tv = as_chars(target);
        let mut out: Vec<char> = Vec::new();
        let mut i: usize = 0;
        proof {
            assert(tv@.subrange(0, tv@.len() as int) =~= tv@);
            assert(out@ + spec_replace_dots(tv@) =~= spec_replace_dots(tv@));
        }
        while i < tv.len()
            invariant
                i <= tv@.len(),
                tv@ == target@,
                out@ + spec_replace_dots(tv@.subrange(i as int, tv@.len() as int))
                    == spec_replace_dots(target@),
            decreases tv@.len() - i,
        {
            let ghost before = tv@.subrange(i as int, tv@.len() as int);
            let ghost out_before = out@;
            let c = tv[i];
            if c == '.' {
                out.push(':');
                out.push(':');
                proof {
                    assert(out@ =~= out_before + seq![':', ':']);
                }
            } else {
                out.push(c);
                proof {
                    assert(out@ =~= out_before + seq![c]);
                }
            }
            i = i + 1;
            proof {
                assert(before.drop_first() =~= tv@.subrange(i as int, tv@.len() as int));
                assert(out_before + (seq![':', ':'] + spec_replace_dots(before.drop_first()))
                    =~= (out_before + seq![':', ':']) + spec_replace_dots(before.drop_first()));
                assert(out_before + (seq![before[0]] + spec_replace_dots(before.drop_first()))
                    =~= (out_before + seq![before[0]]) + spec_replace_dots(before.drop_first()));
            }
        }
        proof {
            assert(spec_replace_dots(tv@.subrange(i as int, tv@.len() as int)) =~= Seq::<
                char,
            >::empty());
            assert(out@ + Seq::<char>::empty() =~= out@);
        }
        let flush = chars_eq_str(&out, "server::loading");
        Some(
            WriteRequest {
                level: lvl,
                target: crate::text::string_from_chars(&out),
                message: String::from_str(message),
                flush,
            },
        )
    }
}

} // verus!
