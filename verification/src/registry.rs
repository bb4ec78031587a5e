//! The command registry: which commands exist, which options each declares,
//! and how a request is resolved to a handler with typed options.

use crate::text::same_text;
use vstd::prelude::*;

verus! {

/// The kind of value an option takes.
#[derive(Debug, Clone, Copy, PartialEq, Eq, Structural)]
pub enum OptionKind {
    String,
    Boolean,
    User,
    Integer,
}

/// One declared option of a command.
#[derive(Debug, PartialEq, Eq)]
pub struct OptionSpec {
    pub name: String,
    pub kind: OptionKind,
    pub required: bool,
}

/// A declared option as plain values.
pub struct OptionSpecView {
    pub name: Seq<char>,
    pub kind: OptionKind,
    pub required: bool,
}

impl View for OptionSpec {
    type V = OptionSpecView;

    open spec fn view(&self) -> OptionSpecView {
        OptionSpecView { name: self.name@, kind: self.kind, required: self.required }
    }
}

/// The views of a sequence of declared options, in order.
pub open spec fn option_spec_views(options: Seq<OptionSpec>) -> Seq<OptionSpecView> {
    Seq::new(options.len(), |i: int| options[i]@)
}

/// A command as it is registered: its name, what it is for, and its options
/// in the order they are declared.
#[derive(Debug, PartialEq, Eq)]
pub struct CommandSpec {
    pub name: String,
    pub description: String,
    pub options: Vec<OptionSpec>,
}

/// A command as plain values.
pub struct CommandSpecView {
    pub name: Seq<char>,
    pub description: Seq<char>,
    pub options: Seq<OptionSpecView>,
}

impl View for CommandSpec {
    type V = CommandSpecView;

    open spec fn view(&self) -> CommandSpecView {
        CommandSpecView {
            name: self.name@,
            description: self.description@,
            options: option_spec_views(self.options@),
        }
    }
}

/// The code that serves a command.
#[derive(Debug, Clone, Copy, PartialEq, Eq, Structural)]
pub enum Handler {
    Avatar,
    Cat,
    Dog,
    EightBall,
    Help,
    Urban,
    Ask,
    Save,
    SetColour,
    Time,
    Translate,
    Tldrify,
    TldrifyLink,
    TldrifyMessage,
    Prompt,
    PromptSet,
    PromptGet,
}

/// A value as the platform delivers it with a request.
#[derive(Debug, PartialEq, Eq)]
pub enum RawValue {
    String(String),
    Boolean(bool),
    User(String),
    Integer(i64),
}

/// A delivered value as plain values.
pub enum RawValueView {
    String(Seq<char>),
    Boolean(bool),
    User(Seq<char>),
    Integer(i64),
}

impl View for RawValue {
    type V = RawValueView;

    open spec fn view(&self) -> RawValueView {
        match self {
            RawValue::String(s) => RawValueView::String(s@),
            RawValue::Boolean(b) => RawValueView::Boolean(*b),
            RawValue::User(id) => RawValueView::User(id@),
            RawValue::Integer(n) => RawValueView::Integer(*n),
        }
    }
}

/// A delivered value under the name it was given for.
#[derive(Debug, PartialEq, Eq)]
pub struct RawOption {
    pub name: String,
    pub value: RawValue,
}

/// A named delivered value as plain values.
pub struct RawOptionView {
    pub name: Seq<char>,
    pub value: RawValueView,
}

impl View for RawOption {
    type V = RawOptionView;

    open spec fn view(&self) -> RawOptionView {
        RawOptionView { name: self.name@, value: self.value@ }
    }
}

/// The views of the delivered options, in order.
pub open spec fn raw_option_views(raw: Seq<RawOption>) -> Seq<RawOptionView> {
    Seq::new(raw.len(), |i: int| raw[i]@)
}

/// A value of the kind that its option declares.
#[derive(Debug, PartialEq, Eq)]
pub enum OptionValue {
    String(String),
    Boolean(bool),
    UserRef(String),
    Integer(i64),
}

/// A typed value as plain values.
pub enum OptionValueView {
    String(Seq<char>),
    Boolean(bool),
    UserRef(Seq<char>),
    Integer(i64),
}

impl View for OptionValue {
    type V = OptionValueView;

    open spec fn view(&self) -> OptionValueView {
        match self {
            OptionValue::String(s) => OptionValueView::String(s@),
            OptionValue::Boolean(b) => OptionValueView::Boolean(*b),
            OptionValue::UserRef(id) => OptionValueView::UserRef(id@),
            OptionValue::Integer(n) => OptionValueView::Integer(*n),
        }
    }
}

/// The view of a value that may be absent.
pub open spec fn opt_value_view(v: Option<OptionValue>) -> Option<OptionValueView> {
    match v {
        Some(x) => Some(x@),
        None => None,
    }
}

/// The views of the typed options, in order.
pub open spec fn opt_value_views(values: Seq<Option<OptionValue>>) -> Seq<Option<OptionValueView>> {
    Seq::new(values.len(), |i: int| opt_value_view(values[i]))
}

/// Why a request was not served.
#[derive(Debug, PartialEq, Eq)]
pub enum DispatchError {
    /// No command of that name is registered.
    NotImplemented,
    /// The named option is required and missing, or not of its declared kind.
    InvalidOption(String),
    /// The handler broke off without an answer.
    HandlerFault,
}

/// A dispatch error as plain values.
pub enum DispatchErrorView {
    NotImplemented,
    InvalidOption(Seq<char>),
    HandlerFault,
}

impl View for DispatchError {
    type V = DispatchErrorView;

    open spec fn view(&self) -> DispatchErrorView {
        match self {
            DispatchError::NotImplemented => DispatchErrorView::NotImplemented,
            DispatchError::InvalidOption(name) => DispatchErrorView::InvalidOption(name@),
            DispatchError::HandlerFault => DispatchErrorView::HandlerFault,
        }
    }
}

/// A resolved request: the handler to run and, for each option the command
/// declares, its typed value or nothing, in the order of declaration.
#[derive(Debug, PartialEq, Eq)]
pub struct Invocation {
    pub handler: Handler,
    pub options: Vec<Option<OptionValue>>,
}

/// A resolved request as plain values.
pub struct InvocationView {
    pub handler: Handler,
    pub options: Seq<Option<OptionValueView>>,
}

impl View for Invocation {
    type V = InvocationView;

    open spec fn view(&self) -> InvocationView {
        InvocationView { handler: self.handler, options: opt_value_views(self.options@) }
    }
}

/// The view of the outcome of a dispatch.
pub open spec fn dispatch_view(r: Result<Invocation, DispatchError>) -> Result<
    InvocationView,
    DispatchErrorView,
> {
    match r {
        Ok(inv) => Ok(inv@),
        Err(e) => Err(e@),
    }
}

/// A registered command with the handler bound to it.
#[derive(Debug, PartialEq, Eq)]
pub struct Entry {
    pub spec: CommandSpec,
    pub handler: Handler,
}

/// A registry entry as plain values.
pub struct EntryView {
    pub spec: CommandSpecView,
    pub handler: Handler,
}

impl View for Entry {
    type V = EntryView;

    open spec fn view(&self) -> EntryView {
        EntryView { spec: self.spec@, handler: self.handler }
    }
}

/// The views of the entries, in order.
pub open spec fn entry_views(entries: Seq<Entry>) -> Seq<EntryView> {
    Seq::new(entries.len(), |i: int| entries[i]@)
}

/// No two entries carry the same command name.
pub open spec fn names_unique(entries: Seq<EntryView>) -> bool {
    forall|i: int, j: int|
        0 <= i < j < entries.len() ==> (#[trigger] entries[i]).spec.name != (
        #[trigger] entries[j]).spec.name
}

/// Some entry carries the command name `name`.
pub open spec fn has_command(entries: Seq<EntryView>, name: Seq<char>) -> bool {
    exists|i: int| 0 <= i < entries.len() && (#[trigger] entries[i]).spec.name == name
}

/// The first entry that carries the command name `name`.
pub open spec fn find_command(entries: Seq<EntryView>, name: Seq<char>) -> Option<EntryView>
    decreases entries.len(),
{
    if entries.len() == 0 {
        None
    } else if entries[0].spec.name == name {
        Some(entries[0])
    } else {
        find_command(entries.drop_first(), name)
    }
}

/// The value delivered under `name`: the first one, where several are.
pub open spec fn raw_lookup(raw: Seq<RawOptionView>, name: Seq<char>) -> Option<RawValueView>
    decreases raw.len(),
{
    if raw.len() == 0 {
        None
    } else if raw[0].name == name {
        Some(raw[0].value)
    } else {
        raw_lookup(raw.drop_first(), name)
    }
}

/// A delivered value as a value of kind `kind`, where it is of that kind.
pub open spec fn coerce(kind: OptionKind, value: RawValueView) -> Option<OptionValueView> {
    match (kind, value) {
        (OptionKind::String, RawValueView::String(s)) => Some(OptionValueView::String(s)),
        (OptionKind::Boolean, RawValueView::Boolean(b)) => Some(OptionValueView::Boolean(b)),
        (OptionKind::User, RawValueView::User(id)) => Some(OptionValueView::UserRef(id)),
        (OptionKind::Integer, RawValueView::Integer(n)) => Some(OptionValueView::Integer(n)),
        _ => None,
    }
}

/// What one declared option resolves to: its typed value, nothing where an
/// optional one is absent, or its own name where it is invalid.
pub open spec fn resolve_option(option: OptionSpecView, raw: Seq<RawOptionView>) -> Result<
    Option<OptionValueView>,
    Seq<char>,
> {
    match raw_lookup(raw, option.name) {
        None => if option.required {
            Err(option.name)
        } else {
            Ok(None)
        },
        Some(value) => match coerce(option.kind, value) {
            Some(typed) => Ok(Some(typed)),
            None => Err(option.name),
        },
    }
}

/// What the declared options resolve to, taken in order: all their values,
/// or the name of the first invalid one.
pub open spec fn resolve_options(options: Seq<OptionSpecView>, raw: Seq<RawOptionView>) -> Result<
    Seq<Option<OptionValueView>>,
    Seq<char>,
>
    decreases options.len(),
{
    if options.len() == 0 {
        Ok(Seq::empty())
    } else {
        match resolve_option(options[0], raw) {
            Err(name) => Err(name),
            Ok(value) => match resolve_options(options.drop_first(), raw) {
                Err(name) => Err(name),
                Ok(values) => Ok(seq![value] + values),
            },
        }
    }
}

/// What a request for `name` with the delivered options `raw` resolves to.
pub open spec fn dispatch_spec(
    entries: Seq<EntryView>,
    name: Seq<char>,
    raw: Seq<RawOptionView>,
) -> Result<InvocationView, DispatchErrorView> {
    match find_command(entries, name) {
        None => Err(DispatchErrorView::NotImplemented),
        Some(entry) => match resolve_options(entry.spec.options, raw) {
            Err(option) => Err(DispatchErrorView::InvalidOption(option)),
            Ok(options) => Ok(InvocationView { handler: entry.handler, options }),
        },
    }
}

/// Why a command was not registered.
#[derive(Debug, Clone, Copy, PartialEq, Eq, Structural)]
pub enum RegisterError {
    /// A command of that name is registered already.
    Duplicate,
}

/// What registering `entry` makes of the entries: the entries with `entry`
/// after them, or a refusal where its name is taken.
pub open spec fn register_spec(entries: Seq<EntryView>, entry: EntryView) -> Result<
    Seq<EntryView>,
    RegisterError,
> {
    if has_command(entries, entry.spec.name) {
        Err(RegisterError::Duplicate)
    } else {
        Ok(entries.push(entry))
    }
}

/// A command is found exactly when some entry carries its name.
pub proof fn lemma_find_command(entries: Seq<EntryView>, name: Seq<char>)
    ensures
        find_command(entries, name) is Some <==> has_command(entries, name),
        find_command(entries, name) matches Some(e) ==> e.spec.name == name && entries.contains(e),
    decreases entries.len(),
{
    if entries.len() == 0 {
    } else if entries[0].spec.name == name {
        assert(entries[0].spec.name == name);
    } else {
        let rest = entries.drop_first();
        lemma_find_command(rest, name);
        if has_command(entries, name) {
            let i = choose|i: int| 0 <= i < entries.len() && (#[trigger] entries[i]).spec.name == name;
            assert(rest[i - 1] == entries[i]);
        }
        if has_command(rest, name) {
            let i = choose|i: int| 0 <= i < rest.len() && (#[trigger] rest[i]).spec.name == name;
            assert(entries[i + 1] == rest[i]);
        }
        if let Some(e) = find_command(rest, name) {
            let i = choose|i: int| 0 <= i < rest.len() && rest[i] == e;
            assert(entries[i + 1] == e);
        }
    }
}

/// The commands of the bot, each name bound to one handler.
pub struct Registry {
    entries: Vec<Entry>,
}

impl View for Registry {
    type V = Seq<EntryView>;

    closed spec fn view(&self) -> Seq<EntryView> {
        entry_views(self.entries@)
    }
}

impl Registry {
    /// No two registered commands carry the same name.
    pub open spec fn wf(&self) -> bool {
        names_unique(self@)
    }

    /// A registry without commands.
    pub fn new() -> (r: Registry)
        ensures
            r@ == Seq::<EntryView>::empty(),
            r.wf(),
    {
        let r = Registry { entries: Vec::new() };
        assert(r@ =~= Seq::<EntryView>::empty());
        r
    }

    /// The number of registered commands.
    pub fn len(&self) -> (n: usize)
        ensures
            n == self@.len(),
    {
        self.entries.len()
    }

    /// The entry registered under `name`, if there is one.
    pub fn lookup(&self, name: &str) -> (r: Option<&Entry>)
        ensures
            match r {
                Some(entry) => find_command(self@, name@) == Some(entry@),
                None => find_command(self@, name@) is None,
            },
            r is Some <==> has_command(self@, name@),
    {
        proof {
            lemma_find_command(self@, name@);
            assert(self@.skip(0) == self@);
        }
        let mut i: usize = 0;
        while i < self.entries.len()
            invariant
                i <= self.entries.len(),
                find_command(self@, name@) == find_command(self@.skip(i as int), name@),
                self@ == entry_views(self.entries@),
            decreases self.entries.len() - i,
        {
            proof {
                assert(self@.skip(i as int).drop_first() == self@.skip(i + 1));
                assert(self@.skip(i as int)[0] == self.entries@[i as int]@);
            }
            if same_text(self.entries[i].spec.name.as_str(), name) {
                return Some(&self.entries[i]);
            }
            i += 1;
        }
        None
    }

    /// Registers a command under its name, bound to `handler`. A name that
    /// is taken is refused, and the registry stays as it was.
    pub fn register(&mut self, spec: CommandSpec, handler: Handler) -> (r: Result<
        (),
        RegisterError,
    >)
        requires
            old(self).wf(),
        ensures
            register_spec(old(self)@, (EntryView { spec: spec@, handler })) matches Ok(entries)
                ==> r is Ok && final(self)@ == entries,
            register_spec(old(self)@, (EntryView { spec: spec@, handler })) matches Err(e) ==> r
                == Err::<(), RegisterError>(e) && final(self)@ == old(self)@,
            final(self).wf(),
    {
        if self.lookup(spec.name.as_str()).is_some() {
            return Err(RegisterError::Duplicate);
        }
        let ghost before = self@;
        let ghost added = EntryView { spec: spec@, handler };
        let entry = Entry { spec, handler };
        self.entries.push(entry);
        proof {
            assert(self@ =~= before.push(added));
            assert forall|i: int, j: int| 0 <= i < j < self@.len() implies (#[trigger] self@[i]).spec.name
                != (#[trigger] self@[j]).spec.name by {
                if j < before.len() {
                    assert(before[i].spec.name != before[j].spec.name);
                } else {
                    assert(before[i] == self@[i]);
                }
            }
        }
        Ok(())
    }
}

/// The view of what one option resolves to.
pub open spec fn resolved_view(r: Result<Option<OptionValue>, String>) -> Result<
    Option<OptionValueView>,
    Seq<char>,
> {
    match r {
        Ok(v) => Ok(opt_value_view(v)),
        Err(name) => Err(name@),
    }
}

/// The value delivered under `name`: the first one, where several are.
pub fn find_raw<'a>(raw: &'a Vec<RawOption>, name: &str) -> (r: Option<&'a RawValue>)
    ensures
        match r {
            Some(value) => raw_lookup(raw_option_views(raw@), name@) == Some(value@),
            None => raw_lookup(raw_option_views(raw@), name@) is None,
        },
{
    let ghost views = raw_option_views(raw@);
    proof {
        assert(views.skip(0) == views);
    }
    let mut i: usize = 0;
    while i < raw.len()
        invariant
            i <= raw.len(),
            views == raw_option_views(raw@),
            raw_lookup(views, name@) == raw_lookup(views.skip(i as int), name@),
        decreases raw.len() - i,
    {
        proof {
            assert(views.skip(i as int).drop_first() == views.skip(i + 1));
            assert(views.skip(i as int)[0] == raw@[i as int]@);
        }
        if same_text(raw[i].name.as_str(), name) {
            return Some(&raw[i].value);
        }
        i += 1;
    }
    None
}

/// A delivered value as a value of kind `kind`, where it is of that kind.
pub fn coerce_value(kind: OptionKind, value: &RawValue) -> (r: Option<OptionValue>)
    ensures
        opt_value_view(r) == coerce(kind, value@),
{
    match (kind, value) {
        (OptionKind::String, RawValue::String(s)) => Some(OptionValue::String(s.clone())),
        (OptionKind::Boolean, RawValue::Boolean(b)) => Some(OptionValue::Boolean(*b)),
        (OptionKind::User, RawValue::User(id)) => Some(OptionValue::UserRef(id.clone())),
        (OptionKind::Integer, RawValue::Integer(n)) => Some(OptionValue::Integer(*n)),
        _ => None,
    }
}

/// Resolves one declared option against the delivered values.
pub fn resolve(option: &OptionSpec, raw: &Vec<RawOption>) -> (r: Result<
    Option<OptionValue>,
    String,
>)
    ensures
        resolved_view(r) == resolve_option(option@, raw_option_views(raw@)),
{
    match find_raw(raw, option.name.as_str()) {
        None => {
            if option.required {
                Err(option.name.clone())
            } else {
                Ok(None)
            }
        },
        Some(value) => {
            match coerce_value(option.kind, value) {
                Some(typed) => Ok(Some(typed)),
                None => Err(option.name.clone()),
            }
        },
    }
}

/// The outcome of resolving the options from index `from` on, behind the
/// values `done` of those before it.
pub open spec fn resolve_rest(
    done: Seq<Option<OptionValueView>>,
    rest: Result<Seq<Option<OptionValueView>>, Seq<char>>,
) -> Result<Seq<Option<OptionValueView>>, Seq<char>> {
    match rest {
        Ok(values) => Ok(done + values),
        Err(name) => Err(name),
    }
}

impl Registry {
    /// Resolves a request: finds the command `command_name` and, for each
    /// option it declares, in order, the typed value among `raw_options`.
    ///
    /// An unknown name gives `NotImplemented`. The first declared option
    /// that is required and missing, or delivered with a value of another
    /// kind, gives `InvalidOption` with its name. Otherwise the handler
    /// bound to the command comes back with the typed options; an optional
    /// one that was not delivered is `None`. The handler is not run here.
    pub fn dispatch(&self, command_name: &str, raw_options: &Vec<RawOption>) -> (r: Result<
        Invocation,
        DispatchError,
    >)
        ensures
            dispatch_view(r) == dispatch_spec(
                self@,
                command_name@,
                raw_option_views(raw_options@),
            ),
            !has_command(self@, command_name@) ==> dispatch_view(r) == Err::<
                InvocationView,
                DispatchErrorView,
            >(DispatchErrorView::NotImplemented),
            !(r matches Err(DispatchError::HandlerFault)),
    {
        proof {
            lemma_find_command(self@, command_name@);
        }
        let entry = match self.lookup(command_name) {
            None => {
                return Err(DispatchError::NotImplemented);
            },
            Some(entry) => entry,
        };
        let ghost specs = entry@.spec.options;
        let ghost raw = raw_option_views(raw_options@);
        let mut options: Vec<Option<OptionValue>> = Vec::new();
        let mut i: usize = 0;
        proof {
            assert(specs.skip(0) == specs);
            assert(opt_value_views(options@) =~= Seq::empty());
            assert(resolve_rest(opt_value_views(options@), resolve_options(specs, raw))
                == resolve_options(specs, raw)) by {
                match resolve_options(specs, raw) {
                    Ok(values) => {
                        assert(Seq::<Option<OptionValueView>>::empty() + values =~= values);
                    },
                    Err(_) => {},
                }
            }
        }
        while i < entry.spec.options.len()
            invariant
                i <= entry.spec.options.len(),
                find_command(self@, command_name@) == Some(entry@),
                has_command(self@, command_name@),
                specs == option_spec_views(entry.spec.options@),
                raw == raw_option_views(raw_options@),
                options.len() == i,
                resolve_options(specs, raw) == resolve_rest(
                    opt_value_views(options@),
                    resolve_options(specs.skip(i as int), raw),
                ),
            decreases entry.spec.options.len() - i,
        {
            proof {
                assert(specs.skip(i as int).drop_first() == specs.skip(i + 1));
                assert(specs.skip(i as int)[0] == entry.spec.options@[i as int]@);
            }
            let ghost before = opt_value_views(options@);
            match resolve(&entry.spec.options[i], raw_options) {
                Err(name) => {
                    return Err(DispatchError::InvalidOption(name));
                },
                Ok(value) => {
                    let ghost v = opt_value_view(value);
                    options.push(value);
                    proof {
                        assert(opt_value_views(options@) =~= before.push(v));
                        match resolve_options(specs.skip(i + 1), raw) {
                            Ok(values) => {
                                assert(before + (seq![v] + values) =~= before.push(v) + values);
                            },
                            Err(_) => {},
                        }
                    }
                },
            }
            i += 1;
        }
        proof {
            assert(specs.skip(i as int).len() == 0);
            assert(opt_value_views(options@) + Seq::<Option<OptionValueView>>::empty()
                =~= opt_value_views(options@));
        }
        Ok(Invocation { handler: entry.handler, options })
    }
}

/// A request for a name that no entry carries is answered with
/// `NotImplemented`, whatever options come with it.
pub proof fn lemma_unknown_command_is_not_implemented(
    entries: Seq<EntryView>,
    name: Seq<char>,
    raw: Seq<RawOptionView>,
)
    requires
        !has_command(entries, name),
    ensures
        dispatch_spec(entries, name, raw) == Err::<InvocationView, DispatchErrorView>(
            DispatchErrorView::NotImplemented,
        ),
{
    lemma_find_command(entries, name);
}

/// Where the options resolve, there is one value for each declared option,
/// and each is what that option resolves to on its own. Where they do not,
/// the name that comes back is that of the first option that does not
/// resolve.
pub proof fn lemma_resolve_options(options: Seq<OptionSpecView>, raw: Seq<RawOptionView>)
    ensures
        match resolve_options(options, raw) {
            Ok(values) => {
                &&& values.len() == options.len()
                &&& forall|i: int|
                    0 <= i < options.len() ==> resolve_option(#[trigger] options[i], raw) == Ok::<
                        Option<OptionValueView>,
                        Seq<char>,
                    >(values[i])
            },
            Err(name) => exists|i: int|
                {
                    &&& 0 <= i < options.len()
                    &&& resolve_option(#[trigger] options[i], raw) == Err::<
                        Option<OptionValueView>,
                        Seq<char>,
                    >(name)
                    &&& name == options[i].name
                    &&& forall|j: int| 0 <= j < i ==> resolve_option(#[trigger] options[j], raw) is Ok
                },
        },
    decreases options.len(),
{
    if options.len() == 0 {
    } else {
        let rest = options.drop_first();
        lemma_resolve_options(rest, raw);
        match resolve_option(options[0], raw) {
            Err(name) => {
                assert(resolve_option(options[0], raw) == Err::<
                    Option<OptionValueView>,
                    Seq<char>,
                >(name));
            },
            Ok(value) => {
                match resolve_options(rest, raw) {
                    Ok(values) => {
                        let all = seq![value] + values;
                        assert forall|i: int| 0 <= i < options.len() implies resolve_option(
                            #[trigger] options[i],
                            raw,
                        ) == Ok::<Option<OptionValueView>, Seq<char>>(all[i]) by {
                            if i > 0 {
                                assert(options[i] == rest[i - 1]);
                                assert(all[i] == values[i - 1]);
                            }
                        }
                    },
                    Err(name) => {
                        let k = choose|k: int|
                            {
                                &&& 0 <= k < rest.len()
                                &&& resolve_option(#[trigger] rest[k], raw) == Err::<
                                    Option<OptionValueView>,
                                    Seq<char>,
                                >(name)
                                &&& name == rest[k].name
                                &&& forall|j: int|
                                    0 <= j < k ==> resolve_option(#[trigger] rest[j], raw) is Ok
                            };
                        assert(options[k + 1] == rest[k]);
                        assert forall|j: int| 0 <= j < k + 1 implies resolve_option(
                            #[trigger] options[j],
                            raw,
                        ) is Ok by {
                            if j > 0 {
                                assert(options[j] == rest[j - 1]);
                            }
                        }
                    },
                }
            },
        }
    }
}

/// A request whose command declares a required option that was not
/// delivered is answered with `InvalidOption`: no handler comes back to be
/// run.
pub proof fn lemma_missing_required_option_is_invalid(
    entries: Seq<EntryView>,
    name: Seq<char>,
    raw: Seq<RawOptionView>,
    i: int,
)
    requires
        find_command(entries, name) matches Some(entry) && 0 <= i < entry.spec.options.len()
            && entry.spec.options[i].required && raw_lookup(raw, entry.spec.options[i].name)
            is None,
    ensures
        dispatch_spec(entries, name, raw) matches Err(DispatchErrorView::InvalidOption(_)),
{
    let entry = find_command(entries, name)->0;
    lemma_resolve_options(entry.spec.options, raw);
    match resolve_options(entry.spec.options, raw) {
        Ok(values) => {
            assert(resolve_option(entry.spec.options[i], raw) is Ok);
        },
        Err(_) => {},
    }
}

/// After a command was registered, a second one of the same name is
/// refused.
pub proof fn lemma_register_twice_is_refused(
    entries: Seq<EntryView>,
    first: EntryView,
    second: EntryView,
)
    requires
        first.spec.name == second.spec.name,
    ensures
        register_spec(entries, first) matches Ok(after) ==> register_spec(after, second) == Err::<
            Seq<EntryView>,
            RegisterError,
        >(RegisterError::Duplicate),
        register_spec(entries, first) is Err ==> register_spec(entries, second) is Err,
{
    if let Ok(after) = register_spec(entries, first) {
        assert(after[entries.len() as int].spec.name == second.spec.name);
    }
}

/// Registering keeps the names of a registry distinct.
pub proof fn lemma_register_keeps_names_unique(entries: Seq<EntryView>, entry: EntryView)
    requires
        names_unique(entries),
    ensures
        register_spec(entries, entry) matches Ok(after) ==> names_unique(after),
{
    if let Ok(after) = register_spec(entries, entry) {
        assert forall|i: int, j: int| 0 <= i < j < after.len() implies (#[trigger] after[i]).spec.name
            != (#[trigger] after[j]).spec.name by {
            if j < entries.len() {
                assert(entries[i].spec.name != entries[j].spec.name);
            } else {
                assert(after[i] == entries[i]);
            }
        }
    }
}

/// The handler answers only after work that takes time.
pub open spec fn takes_time(handler: Handler) -> bool {
    handler == Handler::Ask || handler == Handler::Save || handler == Handler::SetColour
        || handler == Handler::Translate || handler == Handler::TldrifyLink || handler
        == Handler::TldrifyMessage
}

impl Handler {
    /// Whether the handler asks for time before it answers.
    pub fn defers(self) -> (r: bool)
        ensures
            r == takes_time(self),
    {
        match self {
            Handler::Ask => true,
            Handler::Save => true,
            Handler::SetColour => true,
            Handler::Translate => true,
            Handler::TldrifyLink => true,
            Handler::TldrifyMessage => true,
            _ => false,
        }
    }
}

/// The text of the option at `index`: that of a string or of a user
/// reference, nothing for any other value or none.
pub open spec fn option_text(options: Seq<Option<OptionValueView>>, index: int) -> Option<Seq<char>> {
    if 0 <= index < options.len() {
        match options[index] {
            Some(OptionValueView::String(s)) => Some(s),
            Some(OptionValueView::UserRef(id)) => Some(id),
            _ => None,
        }
    } else {
        None
    }
}

/// The truth value of the option at `index`, if it holds one.
pub open spec fn option_flag(options: Seq<Option<OptionValueView>>, index: int) -> Option<bool> {
    if 0 <= index < options.len() {
        match options[index] {
            Some(OptionValueView::Boolean(b)) => Some(b),
            _ => None,
        }
    } else {
        None
    }
}

impl Invocation {
    /// The text of the option at `index`.
    pub fn text(&self, index: usize) -> (r: Option<&str>)
        ensures
            match r {
                Some(s) => option_text(self@.options, index as int) == Some(s@),
                None => option_text(self@.options, index as int) is None,
            },
    {
        if index < self.options.len() {
            match &self.options[index] {
                Some(OptionValue::String(s)) => Some(s.as_str()),
                Some(OptionValue::UserRef(id)) => Some(id.as_str()),
                _ => None,
            }
        } else {
            None
        }
    }

    /// The truth value of the option at `index`.
    pub fn flag(&self, index: usize) -> (r: Option<bool>)
        ensures
            r == option_flag(self@.options, index as int),
    {
        if index < self.options.len() {
            match &self.options[index] {
                Some(OptionValue::Boolean(b)) => Some(*b),
                _ => None,
            }
        } else {
            None
        }
    }
}

} // verus!
