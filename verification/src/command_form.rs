//! The "add command" form of the transaction builder: turning the form's
//! fields into a programmable-transaction command.

use vstd::prelude::*;
use crate::autocomplete::{object_ids_ok, suggestions_fit};
use crate::keys::{handle_input_key, Key};
use crate::seqs::first_index;
use crate::state::App;
use crate::text::{byte_len, chars_of, string_of, sub_chars, trim, trim_chars};
use crate::tx_builder::TxBuilderState;
use crate::types::{AddCommandType, InputMode, PtbCommand};

verus! {

/// The texts of a list of strings.
pub open spec fn strs(v: Seq<String>) -> Seq<Seq<char>> {
    v.map_values(|s: String| s@)
}

/// Index of the first comma.
pub open spec fn first_comma(s: Seq<char>) -> Option<nat> {
    first_index(s.len(), |i: int| s[i] == ',')
}

/// `s.split(',')`: the pieces between commas (one piece when there is none).
pub open spec fn split_commas(s: Seq<char>) -> Seq<Seq<char>>
    decreases s.len(),
{
    match first_comma(s) {
        Some(c) => if c < s.len() {
            seq![s.take(c as int)] + split_commas(s.skip(c + 1int))
        } else {
            seq![s]
        },
        None => seq![s],
    }
}

/// The comma-separated values of a form field, each trimmed.
pub open spec fn comma_list(s: Seq<char>) -> Seq<Seq<char>> {
    split_commas(s).map_values(|p: Seq<char>| trim(p))
}

/// The values of an optional list field: none when it is empty.
pub open spec fn optional_list(s: Seq<char>) -> Seq<Seq<char>> {
    if s.len() == 0 {
        Seq::empty()
    } else {
        comma_list(s)
    }
}

fn first_comma_index(v: &Vec<char>) -> (r: Option<usize>)
    ensures
        r is None ==> first_comma(v@) is None,
        r matches Some(c) ==> first_comma(v@) == Some(c as nat) && c < v@.len(),
{
    for i in 0..v.len()
        invariant
            first_index(i as nat, |j: int| v@[j] == ',') is None,
    {
        if v[i] == ',' {
            proof {
                crate::seqs::lemma_first_index_found(v@.len(), |j: int| v@[j] == ',', i as nat);
            }
            return Some(i);
        }
    }
    None
}

/// `s.split(',').map(|p| p.trim().to_string())`.
pub fn comma_values(s: &str) -> (r: Vec<String>)
    ensures
        strs(r@) == comma_list(s@),
{
    let mut out: Vec<String> = Vec::new();
    let mut rest = chars_of(s);
    loop
        invariant
            split_commas(s@).map_values(|p: Seq<char>| trim(p)) == strs(out@) + split_commas(
                rest@,
            ).map_values(|p: Seq<char>| trim(p)),
        decreases rest@.len(),
    {
        let ghost before = strs(out@);
        match first_comma_index(&rest) {
            Some(c) => {
                let n = rest.len();
                let head = sub_chars(&rest, 0, c);
                let tail = sub_chars(&rest, c + 1, n);
                assert(head@ =~= rest@.take(c as int));
                assert(tail@ =~= rest@.skip(c + 1int));
                let t = trim_chars(&head);
                out.push(string_of(&t));
                assert(strs(out@) =~= before.push(trim(head@)));
                assert(split_commas(rest@).map_values(|p: Seq<char>| trim(p)) =~= seq![trim(head@)]
                    + split_commas(tail@).map_values(|p: Seq<char>| trim(p)));
                assert(before + (seq![trim(head@)] + split_commas(tail@).map_values(
                    |p: Seq<char>| trim(p),
                )) =~= before.push(trim(head@)) + split_commas(tail@).map_values(
                    |p: Seq<char>| trim(p),
                ));
                rest = tail;
            },
            None => {
                let t = trim_chars(&rest);
                out.push(string_of(&t));
                assert(strs(out@) =~= before.push(trim(rest@)));
                assert(split_commas(rest@).map_values(|p: Seq<char>| trim(p)) =~= seq![trim(rest@)]);
                return out;
            },
        }
    }
}

fn optional_values(s: &String) -> (r: Vec<String>)
    ensures
        strs(r@) == optional_list(s@),
{
    if s.as_str().is_empty() {
        let r: Vec<String> = Vec::new();
        assert(strs(r@) =~= Seq::<Seq<char>>::empty());
        r
    } else {
        comma_values(s.as_str())
    }
}

fn copy_strings(v: &Vec<String>) -> (r: Vec<String>)
    ensures
        r@ == v@,
{
    let mut r: Vec<String> = Vec::new();
    for i in 0..v.len()
        invariant
            r@ == v@.take(i as int),
    {
        r.push(v[i].clone());
        assert(r@ =~= v@.take(i + 1));
    }
    assert(v@.take(v@.len() as int) =~= v@);
    r
}

impl App {
    /// The command the form describes, as `build_command_from_form` builds
    /// it: `None` when no command type is chosen, a needed field is
    /// missing or empty, or a list of picked objects is empty. Addresses
    /// go through `resolve_address`; the amounts of a split are the values
    /// added one at a time when there are any; list fields are split at commas and
    /// trimmed.
    pub open spec fn builds(&self, r: Option<PtbCommand>) -> bool {
        let bufs = strs(self.tx.edit_buffers@);
        let picked = strs(self.tx.multi_values@);
        match self.tx.adding_cmd {
            None => r is None,
            Some(AddCommandType::TransferIota) => if bufs.len() < 2 {
                r is None
            } else {
                let rec = self.spec_resolve_address(bufs[0]);
                if rec.len() == 0 || bufs[1].len() == 0 {
                    r is None
                } else {
                    r matches Some(PtbCommand::TransferIota { recipient, amount }) && recipient@
                        == rec && amount@ == bufs[1]
                }
            },
            Some(AddCommandType::TransferObjects) => if bufs.len() < 1 {
                r is None
            } else {
                let rec = self.spec_resolve_address(bufs[0]);
                if rec.len() == 0 || picked.len() == 0 {
                    r is None
                } else {
                    r matches Some(PtbCommand::TransferObjects { recipient, object_ids })
                        && recipient@ == rec && strs(object_ids@) == picked
                }
            },
            Some(AddCommandType::MoveCall) => if bufs.len() < 3 {
                r is None
            } else if bufs[0].len() == 0 || bufs[1].len() == 0 || bufs[2].len() == 0 {
                r is None
            } else {
                let ta = if bufs.len() > 3 {
                    bufs[3]
                } else {
                    Seq::empty()
                };
                let ar = if bufs.len() > 4 {
                    bufs[4]
                } else {
                    Seq::empty()
                };
                r matches Some(PtbCommand::MoveCall { package, module, function, type_args, args })
                    && package@ == bufs[0] && module@ == bufs[1] && function@ == bufs[2] && strs(
                    type_args@,
                ) == optional_list(ta) && strs(args@) == optional_list(ar)
            },
            Some(AddCommandType::SplitCoins) => if bufs.len() < 2 || bufs[0].len() == 0 {
                r is None
            } else if picked.len() > 0 {
                r matches Some(PtbCommand::SplitCoins { coin, amounts }) && coin@ == bufs[0] && strs(
                    amounts@,
                ) == picked
            } else if bufs[1].len() == 0 {
                r is None
            } else {
                r matches Some(PtbCommand::SplitCoins { coin, amounts }) && coin@ == bufs[0] && strs(
                    amounts@,
                ) == comma_list(bufs[1])
            },
            Some(AddCommandType::MergeCoins) => if bufs.len() < 1 {
                r is None
            } else if bufs[0].len() == 0 || picked.len() == 0 {
                r is None
            } else {
                r matches Some(PtbCommand::MergeCoins { primary, sources }) && primary@ == bufs[0]
                    && strs(sources@) == picked
            },
            Some(AddCommandType::Stake) => if bufs.len() < 2 {
                r is None
            } else {
                let v = self.spec_resolve_address(bufs[1]);
                if bufs[0].len() == 0 || v.len() == 0 {
                    r is None
                } else {
                    r matches Some(PtbCommand::Stake { amount, validator }) && amount@ == bufs[0]
                        && validator@ == v
                }
            },
            Some(AddCommandType::Unstake) => if bufs.len() < 1 {
                r is None
            } else if bufs[0].len() == 0 {
                r is None
            } else {
                r matches Some(PtbCommand::Unstake { staked_iota_id }) && staked_iota_id@ == bufs[0]
            },
        }
    }
}

/// Parse the form buffers into a PtbCommand based on the selected command type.
/// Address fields are resolved through aliases (key aliases + address book labels).
pub fn build_command_from_form(app: &App) -> (r: Option<PtbCommand>)
    ensures
        app.builds(r),
{
    let ct = match app.tx.adding_cmd {
        Some(ct) => ct,
        None => return None,
    };
    let bufs = &app.tx.edit_buffers;
    let n = bufs.len();
    proof {
        assert(strs(bufs@).len() == n);
        assert forall|i: int| 0 <= i < n implies strs(bufs@)[i] == (#[trigger] bufs@[i])@ by {}
    }
    match ct {
        AddCommandType::TransferIota => {
            if n < 2 {
                return None;
            }
            let recipient = app.resolve_address(bufs[0].as_str());
            let amount = bufs[1].clone();
            if recipient.as_str().is_empty() || amount.as_str().is_empty() {
                return None;
            }
            Some(PtbCommand::TransferIota { recipient, amount })
        },
        AddCommandType::TransferObjects => {
            if n < 1 {
                return None;
            }
            let recipient = app.resolve_address(bufs[0].as_str());
            if recipient.as_str().is_empty() || app.tx.multi_values.len() == 0 {
                return None;
            }
            Some(
                PtbCommand::TransferObjects {
                    recipient,
                    object_ids: copy_strings(&app.tx.multi_values),
                },
            )
        },
        AddCommandType::MoveCall => {
            if n < 3 {
                return None;
            }
            let package = bufs[0].clone();
            let module = bufs[1].clone();
            let function = bufs[2].clone();
            if package.as_str().is_empty() || module.as_str().is_empty()
                || function.as_str().is_empty() {
                return None;
            }
            let empty = String::new();
            let type_args_str = if n > 3 {
                &bufs[3]
            } else {
                &empty
            };
            let args_str = if n > 4 {
                &bufs[4]
            } else {
                &empty
            };
            let type_args = optional_values(type_args_str);
            let args = optional_values(args_str);
            Some(PtbCommand::MoveCall { package, module, function, type_args, args })
        },
        AddCommandType::SplitCoins => {
            if n < 2 {
                return None;
            }
            let coin = bufs[0].clone();
            if coin.as_str().is_empty() {
                return None;
            }
            if app.tx.multi_values.len() > 0 {
                return Some(
                    PtbCommand::SplitCoins { coin, amounts: copy_strings(&app.tx.multi_values) },
                );
            }
            let amounts_str = bufs[1].clone();
            if amounts_str.as_str().is_empty() {
                return None;
            }
            let amounts = comma_values(amounts_str.as_str());
            Some(PtbCommand::SplitCoins { coin, amounts })
        },
        AddCommandType::MergeCoins => {
            if n < 1 {
                return None;
            }
            let primary = bufs[0].clone();
            if primary.as_str().is_empty() || app.tx.multi_values.len() == 0 {
                return None;
            }
            Some(PtbCommand::MergeCoins { primary, sources: copy_strings(&app.tx.multi_values) })
        },
        AddCommandType::Stake => {
            if n < 2 {
                return None;
            }
            let amount = bufs[0].clone();
            let validator = app.resolve_address(bufs[1].as_str());
            if amount.as_str().is_empty() || validator.as_str().is_empty() {
                return None;
            }
            Some(PtbCommand::Stake { amount, validator })
        },
        AddCommandType::Unstake => {
            if n < 1 {
                return None;
            }
            let staked_iota_id = bufs[0].clone();
            if staked_iota_id.as_str().is_empty() {
                return None;
            }
            Some(PtbCommand::Unstake { staked_iota_id })
        },
    }
}

// ── Keys in the form ─────────────────────────────────────────────

impl App {
    /// What the form's keys may rely on: the edited field exists, the
    /// cursor is on a character boundary, every text fits (with room to
    /// edit) in the input buffer, and object suggestions can be labelled
    /// (in the two forms that offer them: transfer objects and unstake).
    pub open spec fn form_ok(&self) -> bool {
        &&& self.fields_ok()
        &&& suggestions_fit(self.autocomplete@)
        &&& (self.tx.adding_cmd == Some(AddCommandType::TransferObjects) || self.tx.adding_cmd
            == Some(AddCommandType::Unstake)) ==> object_ids_ok(self.objects@)
    }

    /// The edited field exists, the cursor is on a character boundary and
    /// every field's text fits, with room to edit, in the input buffer.
    pub open spec fn fields_ok(&self) -> bool {
        &&& self.tx.edit_field < self.tx.edit_buffers@.len()
        &&& self.input_ok()
        &&& forall|i: int|
            0 <= i < self.tx.edit_buffers@.len() ==> byte_len((#[trigger] self.tx.edit_buffers@[i])@)
                + 4 <= usize::MAX
    }

    /// The form was closed without adding a command.
    pub open spec fn form_closed(&self, o: &App) -> bool {
        &&& self.input_buffer@.len() == 0
        &&& self.autocomplete@.len() == 0
        &&& self.tx.multi_values@.len() == 0
        &&& *self == (App {
            tx: TxBuilderState { adding_cmd: None, multi_values: self.tx.multi_values, ..o.tx },
            popup: None,
            input_mode: InputMode::Normal,
            input_buffer: self.input_buffer,
            input_cursor: 0,
            autocomplete: self.autocomplete,
            ..*o
        })
    }

    /// The typed text added as one more value of a multi-value field.
    pub open spec fn value_added(&self, o: &App) -> bool {
        &&& self.tx.multi_values@ == o.tx.multi_values@.push(o.input_buffer)
        &&& self.input_buffer@.len() == 0
        &&& *self == (App {
            tx: TxBuilderState { multi_values: self.tx.multi_values, ..o.tx },
            input_buffer: self.input_buffer,
            input_cursor: 0,
            ..*o
        })
    }

    /// First half of Tab: take the highlighted suggestion (or the first one),
    /// else add typed text to a multi-value field.
    pub open spec fn tab_taken(&self, o: &App) -> bool {
        if o.picked_suggestion() is Some {
            self.suggestion_accepted(o, true)
        } else if o.autocomplete@.len() > 0 {
            self.suggestion_accepted(&App { autocomplete_idx: Some(0), ..*o }, true)
        } else if o.tx.spec_is_multi_value_field() && o.input_buffer@.len() > 0 {
            self.value_added(o)
        } else {
            *self == *o
        }
    }

    /// Second half of Tab: a single-value field is stored and editing
    /// moves to the next field (round to the first).
    pub open spec fn tab_moved(&self, o: &App) -> bool {
        if o.tx.spec_is_multi_value_field() {
            *self == *o
        } else {
            let bufs = o.tx.edit_buffers@.update(o.tx.edit_field as int, o.input_buffer);
            let nf = ((o.tx.edit_field + 1) % (bufs.len() as int)) as usize;
            &&& self.tx.edit_buffers@ == bufs
            &&& self.input_buffer@ == bufs[nf as int]@
            &&& self.input_cursor as nat == byte_len(bufs[nf as int]@)
            &&& *self == (App {
                tx: TxBuilderState { edit_buffers: self.tx.edit_buffers, edit_field: nf, ..o.tx },
                input_mode: InputMode::Editing,
                input_buffer: self.input_buffer,
                input_cursor: self.input_cursor,
                ..*o
            })
        }
    }

    /// Enter with nothing highlighted on a single-value field: the text is
    /// stored, and when the form describes a command it is added to the
    /// transaction and the form closes.
    pub open spec fn form_entered(&self, o: &App) -> bool {
        let a = App {
            tx: TxBuilderState { edit_buffers: self.tx.edit_buffers, ..o.tx },
            ..*o
        };
        &&& self.tx.edit_buffers@ == o.tx.edit_buffers@.update(o.tx.edit_field as int, o.input_buffer)
        &&& exists|r: Option<PtbCommand>|
            #[trigger] a.builds(r) && match r {
                Some(cmd) => {
                    &&& self.tx.commands@ == o.tx.commands@.push(cmd)
                    &&& self.input_buffer@.len() == 0
                    &&& self.autocomplete@.len() == 0
                    &&& self.tx.multi_values@.len() == 0
                    &&& *self == (App {
                        tx: TxBuilderState {
                            commands: self.tx.commands,
                            dry_run_dirty: true,
                            adding_cmd: None,
                            multi_values: self.tx.multi_values,
                            ..a.tx
                        },
                        popup: None,
                        input_mode: InputMode::Normal,
                        input_buffer: self.input_buffer,
                        input_cursor: 0,
                        autocomplete: self.autocomplete,
                        autocomplete_idx: None,
                        ..a
                    })
                },
                None => *self == a,
            }
    }

    /// The "add command" form handled `key`.
    #[verifier::opaque]
    pub open spec fn command_form_key(&self, o: &App, key: Key) -> bool {
        let multi = o.tx.spec_is_multi_value_field();
        if key == Key::Esc {
            if o.autocomplete_idx is Some {
                *self == (App { autocomplete_idx: None, ..*o })
            } else {
                self.form_closed(o)
            }
        } else if key == Key::Down && o.autocomplete@.len() > 0 {
            *self == (App {
                autocomplete_idx: Some(
                    match o.autocomplete_idx {
                        None => 0,
                        Some(i) => if i + 1 < o.autocomplete@.len() {
                            (i + 1) as usize
                        } else {
                            (o.autocomplete@.len() - 1) as usize
                        },
                    },
                ),
                ..*o
            })
        } else if key == Key::Up && o.autocomplete_idx is Some {
            *self == (App {
                autocomplete_idx: match o.autocomplete_idx {
                    Some(i) => if i == 0 {
                        None
                    } else {
                        Some((i - 1) as usize)
                    },
                    None => None,
                },
                ..*o
            })
        } else if key == Key::Backspace && o.input_buffer@.len() == 0 && multi
            && o.tx.multi_values@.len() > 0 {
            &&& self.tx.multi_values@ == o.tx.multi_values@.drop_last()
            &&& *self == (App { tx: TxBuilderState { multi_values: self.tx.multi_values, ..o.tx }, ..*o })
        } else if key == Key::Tab {
            exists|a1: App, a2: App|
                #![trigger a1.tab_taken(o), a2.tab_moved(&a1)]
                a1.tab_taken(o) && a2.tab_moved(&a1) && self.suggestions_refreshed(&a2)
        } else if key == Key::Enter {
            if o.autocomplete_idx is Some {
                exists|b: bool| #[trigger] self.suggestion_accepted(o, b)
            } else if multi && o.input_buffer@.len() > 0 {
                exists|a1: App| #[trigger] a1.value_added(o) && self.suggestions_refreshed(&a1)
            } else {
                self.form_entered(o)
            }
        } else {
            exists|a1: App| #[trigger] a1.edited_by(o, key) && self.suggestions_refreshed(&a1)
        }
    }
}

fn add_typed_value(app: &mut App)
    ensures
        final(app).value_added(old(app)),
{
    let val = app.input_buffer.clone();
    app.tx.multi_values.push(val);
    app.input_buffer = String::new();
    app.input_cursor = 0;
}

fn close_form(app: &mut App)
    ensures
        final(app).form_closed(old(app)),
{
    app.popup = None;
    app.tx.adding_cmd = None;
    app.input_mode = InputMode::Normal;
    app.input_clear();
    app.autocomplete.clear();
    app.tx.multi_values.clear();
}

fn tab_take(app: &mut App)
    requires
        old(app).form_ok(),
    ensures
        final(app).tab_taken(old(app)),
        final(app).fields_ok(),
        final(app).objects == old(app).objects,
        final(app).tx.adding_cmd == old(app).tx.adding_cmd,
        final(app).tx.edit_field == old(app).tx.edit_field,
{
    let idx = match app.autocomplete_idx {
        Some(i) => i,
        None => 0,
    };
    if idx < app.autocomplete.len() {
        let _ = app.accept_autocomplete();
        proof {
            reveal(App::suggestion_accepted);
        }
        return;
    }
    if app.autocomplete.len() > 0 {
        app.autocomplete_idx = Some(0);
        let _ = app.accept_autocomplete();
        proof {
            reveal(App::suggestion_accepted);
        }
        return;
    }
    if app.tx.is_multi_value_field() && !app.input_buffer.as_str().is_empty() {
        add_typed_value(app);
        proof {
            crate::text::lemma_boundary_at_end(Seq::<char>::empty());
        }
    }
}

fn tab_move(app: &mut App)
    requires
        old(app).fields_ok(),
    ensures
        final(app).tab_moved(old(app)),
        final(app).objects == old(app).objects,
{
    if app.tx.is_multi_value_field() {
        return;
    }
    let f = app.tx.edit_field;
    let val = app.input_buffer.clone();
    app.tx.edit_buffers.set(f, val);
    let count = app.tx.edit_buffers.len();
    let nf = (f + 1) % count;
    app.tx.edit_field = nf;
    let next_val = app.tx.edit_buffers[nf].clone();
    app.start_input(next_val.as_str());
}

fn enter_form(app: &mut App)
    requires
        old(app).fields_ok(),
    ensures
        final(app).form_entered(old(app)),
{
    let f = app.tx.edit_field;
    let val = app.input_buffer.clone();
    app.tx.edit_buffers.set(f, val);
    let ghost a = *app;
    let r = build_command_from_form(app);
    let ghost rr = r;
    add_built_command(app, r);
    proof {
        assert(a.builds(rr));
    }
}

/// Add the built command (if any) to the transaction and close the form.
fn add_built_command(app: &mut App, r: Option<PtbCommand>)
    ensures
        match r {
            Some(cmd) => {
                &&& final(app).tx.commands@ == old(app).tx.commands@.push(cmd)
                &&& final(app).input_buffer@.len() == 0
                &&& final(app).autocomplete@.len() == 0
                &&& final(app).tx.multi_values@.len() == 0
                &&& *final(app) == (App {
                    tx: TxBuilderState {
                        commands: final(app).tx.commands,
                        dry_run_dirty: true,
                        adding_cmd: None,
                        multi_values: final(app).tx.multi_values,
                        ..old(app).tx
                    },
                    popup: None,
                    input_mode: InputMode::Normal,
                    input_buffer: final(app).input_buffer,
                    input_cursor: 0,
                    autocomplete: final(app).autocomplete,
                    autocomplete_idx: None,
                    ..*old(app)
                })
            },
            None => *final(app) == *old(app),
        },
{
    let cmd = match r {
        Some(c) => c,
        None => return,
    };
    app.tx.commands.push(cmd);
    app.tx.dry_run_dirty = true;
    app.popup = None;
    app.tx.adding_cmd = None;
    app.input_mode = InputMode::Normal;
    app.input_clear();
    app.autocomplete.clear();
    app.autocomplete_idx = None;
    app.tx.multi_values.clear();
}

/// Handle a key in the "add command" form: suggestions are moved through
/// and taken with the arrows, Tab and Enter; Tab also moves between the
/// fields; Enter adds the command once the form describes one; Esc drops
/// the highlight, then closes the form; other keys edit the text.
pub fn handle_command_form_key(app: &mut App, key: Key)
    requires
        old(app).form_ok(),
    ensures
        final(app).command_form_key(old(app), key),
{
    if key == Key::Esc {
        form_escape(app);
    } else if key == Key::Down && app.autocomplete.len() > 0 {
        form_down(app);
    } else if key == Key::Up && app.autocomplete_idx.is_some() {
        form_up(app);
    } else if key == Key::Backspace && app.input_buffer.as_str().is_empty()
        && app.tx.is_multi_value_field() && app.tx.multi_values.len() > 0 {
        app.remove_last_multi_value();
        proof {
            reveal(App::command_form_key);
        }
    } else if key == Key::Tab {
        form_tab(app);
    } else if key == Key::Enter {
        form_enter(app);
    } else {
        form_edit(app, key);
    }
}

fn form_escape(app: &mut App)
    ensures
        final(app).command_form_key(old(app), Key::Esc),
{
    if app.autocomplete_idx.is_some() {
        app.autocomplete_idx = None;
    } else {
        close_form(app);
    }
    proof {
        reveal(App::command_form_key);
    }
}

fn form_down(app: &mut App)
    requires
        old(app).autocomplete@.len() > 0,
    ensures
        final(app).command_form_key(old(app), Key::Down),
{
    let len = app.autocomplete.len();
    app.autocomplete_idx = Some(
        match app.autocomplete_idx {
            None => 0,
            Some(i) => if i < len - 1 {
                i + 1
            } else {
                len - 1
            },
        },
    );
    proof {
        reveal(App::command_form_key);
    }
}

fn form_up(app: &mut App)
    requires
        old(app).autocomplete_idx is Some,
    ensures
        final(app).command_form_key(old(app), Key::Up),
{
    app.autocomplete_idx = match app.autocomplete_idx {
        Some(i) => if i == 0 {
            None
        } else {
            Some(i - 1)
        },
        None => None,
    };
    proof {
        reveal(App::command_form_key);
    }
}

fn form_tab(app: &mut App)
    requires
        old(app).form_ok(),
    ensures
        final(app).command_form_key(old(app), Key::Tab),
{
    tab_take(app);
    let ghost a1 = *app;
    tab_move(app);
    let ghost a2 = *app;
    app.update_autocomplete();
    proof {
        reveal(App::command_form_key);
        assert(a1.tab_taken(old(app)) && a2.tab_moved(&a1));
    }
}

fn form_enter(app: &mut App)
    requires
        old(app).form_ok(),
    ensures
        final(app).command_form_key(old(app), Key::Enter),
{
    if app.autocomplete_idx.is_some() {
        let b = app.accept_autocomplete();
        proof {
            reveal(App::command_form_key);
        }
        return;
    }
    if app.tx.is_multi_value_field() && !app.input_buffer.as_str().is_empty() {
        add_typed_value(app);
        let ghost a1 = *app;
        app.update_autocomplete();
        proof {
            reveal(App::command_form_key);
            assert(a1.value_added(old(app)));
        }
        return;
    }
    enter_form(app);
    proof {
        reveal(App::command_form_key);
    }
}

fn form_edit(app: &mut App, key: Key)
    requires
        old(app).form_ok(),
        key != Key::Esc,
        key != Key::Tab,
        key != Key::Enter,
        !(key == Key::Down && old(app).autocomplete@.len() > 0),
        !(key == Key::Up && old(app).autocomplete_idx is Some),
        !(key == Key::Backspace && old(app).input_buffer@.len() == 0
            && old(app).tx.spec_is_multi_value_field() && old(app).tx.multi_values@.len() > 0),
    ensures
        final(app).command_form_key(old(app), key),
{
    handle_input_key(app, key);
    let ghost a1 = *app;
    proof {
        reveal(App::edited_by);
    }
    app.update_autocomplete();
    proof {
        reveal(App::command_form_key);
        assert(a1.edited_by(old(app), key));
    }
}

} // verus!
