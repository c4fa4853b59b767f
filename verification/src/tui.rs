//! The terminal menu's state: which entry is selected, the line being
//! typed, and the four-step LLM form.
//!
//! Drawing and reading keys are done by the program around this library,
//! which hands each key over as a `MenuKey` or an `InputKey`.

use vstd::prelude::*;
use crate::menu_core::{
    menu_executed, menu_item, menu_item_spec, menu_status_set, EditableField, MenuAction, MenuCore,
    MENU_ITEM_COUNT,
};
use crate::text::{copy_str, decimal, from_chars_range, push_char, to_chars, trim, trim_str};

verus! {

/// The field edited at step `step` of the LLM form.
pub open spec fn step_field(step: nat) -> EditableField {
    if step == 0 {
        EditableField::LlmProvider
    } else if step == 1 {
        EditableField::LlmModel
    } else if step == 2 {
        EditableField::LlmApiBase
    } else {
        EditableField::LlmApiKey
    }
}

/// The configuration key a field edits.
pub open spec fn field_label(f: EditableField) -> Seq<char> {
    match f {
        EditableField::LlmProvider => "llm.provider"@,
        EditableField::LlmModel => "llm.model"@,
        EditableField::LlmApiBase => "llm.api_base"@,
        EditableField::LlmApiKey => "llm.api_key"@,
    }
}

/// The configuration key a field edits.
pub fn input_target_label(target: EditableField) -> (r: &'static str)
    ensures
        r@ == field_label(target),
{
    match target {
        EditableField::LlmProvider => "llm.provider",
        EditableField::LlmModel => "llm.model",
        EditableField::LlmApiBase => "llm.api_base",
        EditableField::LlmApiKey => "llm.api_key",
    }
}

/// The values typed so far in the LLM form, and its step.
#[derive(Debug, Clone)]
pub struct LlmFormDraft {
    pub provider: String,
    pub model: String,
    pub api_base: String,
    pub api_key: String,
    pub step: usize,
}

/// The value of a field in the form.
pub open spec fn form_value(form: LlmFormDraft, f: EditableField) -> Seq<char> {
    match f {
        EditableField::LlmProvider => form.provider@,
        EditableField::LlmModel => form.model@,
        EditableField::LlmApiBase => form.api_base@,
        EditableField::LlmApiKey => form.api_key@,
    }
}

/// The form's four values as plain values.
pub open spec fn form_values(form: LlmFormDraft) -> (Seq<char>, Seq<char>, Seq<char>, Seq<char>) {
    (form.provider@, form.model@, form.api_base@, form.api_key@)
}

/// The values after the field of the current step is set to `v`.
pub open spec fn form_values_with(form: LlmFormDraft, v: Seq<char>) -> (Seq<char>, Seq<char>, Seq<char>, Seq<char>) {
    match step_field(form.step as nat) {
        EditableField::LlmProvider => (v, form.model@, form.api_base@, form.api_key@),
        EditableField::LlmModel => (form.provider@, v, form.api_base@, form.api_key@),
        EditableField::LlmApiBase => (form.provider@, form.model@, v, form.api_key@),
        EditableField::LlmApiKey => (form.provider@, form.model@, form.api_base@, v),
    }
}

impl LlmFormDraft {
    /// The field of the current step.
    pub fn current_field(&self) -> (r: EditableField)
        ensures
            r == step_field(self.step as nat),
    {
        if self.step == 0 {
            EditableField::LlmProvider
        } else if self.step == 1 {
            EditableField::LlmModel
        } else if self.step == 2 {
            EditableField::LlmApiBase
        } else {
            EditableField::LlmApiKey
        }
    }

    /// The value of the current step's field.
    pub fn current_value(&self) -> (r: String)
        ensures
            r@ == form_value(*self, step_field(self.step as nat)),
    {
        match self.current_field() {
            EditableField::LlmProvider => copy_str(self.provider.as_str()),
            EditableField::LlmModel => copy_str(self.model.as_str()),
            EditableField::LlmApiBase => copy_str(self.api_base.as_str()),
            EditableField::LlmApiKey => copy_str(self.api_key.as_str()),
        }
    }

    /// Sets the current step's field.
    pub fn set_current_value(&mut self, value: String)
        ensures
            form_values(*final(self)) == form_values_with(*old(self), value@),
            final(self).step == old(self).step,
    {
        match self.current_field() {
            EditableField::LlmProvider => self.provider = value,
            EditableField::LlmModel => self.model = value,
            EditableField::LlmApiBase => self.api_base = value,
            EditableField::LlmApiKey => self.api_key = value,
        }
    }

    /// The configuration key of the current step.
    pub fn current_label(&self) -> (r: &'static str)
        ensures
            r@ == field_label(step_field(self.step as nat)),
    {
        input_target_label(self.current_field())
    }
}

/// A key pressed while the menu is shown.
#[derive(Debug, Clone, Copy, PartialEq, Eq, Structural)]
pub enum MenuKey {
    Up,
    Down,
    Enter,
    Quit,
    Other,
}

/// A key pressed while a value is typed.
#[derive(Debug, Clone, Copy, PartialEq, Eq, Structural)]
pub enum InputKey {
    Esc,
    Enter,
    Backspace,
    Char(char),
    Other,
}

/// The terminal menu.
pub struct TuiState {
    pub menu: MenuCore,
    pub selected: usize,
    pub input_target: Option<EditableField>,
    pub input_buffer: String,
    pub llm_form: Option<LlmFormDraft>,
    pub should_quit: bool,
}

/// The status while the form is at (zero-based) step `step`.
pub open spec fn form_step_status(step: nat, label: Seq<char>) -> Seq<char> {
    "LLM 配置表单（"@ + decimal(step + 1) + "/4）：编辑 "@ + label
}

/// The selection after Up: the entry above, wrapping to the last.
pub open spec fn selection_up(selected: nat) -> nat {
    if selected == 0 {
        (MENU_ITEM_COUNT - 1) as nat
    } else {
        (selected - 1) as nat
    }
}

/// The selection after Down: the entry below, wrapping to the first.
pub open spec fn selection_down(selected: nat) -> nat {
    (selected + 1) % (MENU_ITEM_COUNT as nat)
}

impl TuiState {
    /// The menu shown, with the first entry selected and nothing typed.
    pub fn new(menu: MenuCore) -> (r: Self)
        ensures
            r.menu == menu,
            r.selected == 0,
            r.input_target is None,
            r.input_buffer@ == Seq::<char>::empty(),
            r.llm_form is None,
            !r.should_quit,
    {
        TuiState {
            menu,
            selected: 0,
            input_target: None,
            input_buffer: String::new(),
            llm_form: None,
            should_quit: false,
        }
    }

    /// The label of the selected entry.
    pub fn selected_label(&self) -> (r: &'static str)
        requires
            self.selected < MENU_ITEM_COUNT,
        ensures
            r@ == menu_item_spec(self.selected as int),
    {
        menu_item(self.selected)
    }

    /// Handles a key in menu mode: `q` quits, Up and Down move the
    /// selection round the entries, Enter runs the selected entry.
    pub fn handle_menu_mode_key(&mut self, key: MenuKey)
        requires
            old(self).selected < usize::MAX,
        ensures
            key == MenuKey::Quit ==> final(self).should_quit && final(self).selected == old(self).selected && final(self).menu == old(self).menu,
            key == MenuKey::Up ==> final(self).selected == selection_up(old(self).selected as nat)
                && final(self).menu == old(self).menu && final(self).should_quit == old(self).should_quit,
            key == MenuKey::Down ==> final(self).selected == selection_down(
                old(self).selected as nat,
            ) && final(self).menu == old(self).menu && final(self).should_quit == old(self).should_quit,
            key == MenuKey::Enter ==> executed_entry(*old(self), *final(self)),
            key == MenuKey::Other ==> final(self).selected == old(self).selected && final(self).menu
                == old(self).menu && final(self).should_quit == old(self).should_quit,
    {
        match key {
            MenuKey::Quit => {
                self.should_quit = true;
            },
            MenuKey::Up => {
                if self.selected == 0 {
                    self.selected = MENU_ITEM_COUNT - 1;
                } else {
                    self.selected = self.selected - 1;
                }
            },
            MenuKey::Down => {
                self.selected = (self.selected + 1) % MENU_ITEM_COUNT;
            },
            MenuKey::Enter => self.execute_menu_action(),
            MenuKey::Other => {},
        }
    }

    /// Runs the selected entry: toggle the LLM, toggle text correction,
    /// start the LLM form, or quit.
    pub fn execute_menu_action(&mut self)
        ensures
            executed_entry(*old(self), *final(self)),
    {
        if self.selected == 0 {
            let _ = self.menu.execute(MenuAction::ToggleLlmEnabled);
        } else if self.selected == 1 {
            let _ = self.menu.execute(MenuAction::ToggleTextCorrectionEnabled);
        } else if self.selected == 2 {
            self.start_llm_form();
        } else if self.selected == 3 {
            let result = self.menu.execute(MenuAction::QuitUi);
            if result.quit_ui {
                self.should_quit = true;
            }
        }
    }

    /// Opens the LLM form on the current settings, at its first step.
    pub fn start_llm_form(&mut self)
        ensures
            form_started(*old(self), *final(self)),
    {
        let snapshot = self.menu.snapshot();
        let form = LlmFormDraft {
            provider: snapshot.llm_provider,
            model: snapshot.llm_model,
            api_base: snapshot.llm_api_base,
            api_key: snapshot.llm_api_key,
            step: 0,
        };
        self.input_target = Some(form.current_field());
        self.input_buffer = form.current_value();
        self.llm_form = Some(form);
        self.menu.set_status("LLM 配置表单（1/4）：编辑 llm.provider");
    }

    /// Handles a key while a value is typed: Esc cancels, Enter applies
    /// the value, Backspace deletes the last character, and a character is
    /// appended.
    pub fn handle_input_mode_key(&mut self, key: InputKey) -> (r: Result<(), String>)
        ensures
            key == InputKey::Esc ==> r is Ok && final(self).llm_form is None && final(self).input_target is None && final(self).input_buffer@ == Seq::<char>::empty()
                && menu_status_set(old(self).menu, final(self).menu, "已取消编辑"@),
            key == InputKey::Enter ==> input_applied(*old(self), *final(self), r),
            key == InputKey::Backspace ==> r is Ok && final(self).input_buffer@ == (if old(self).input_buffer@.len() > 0 {
                old(self).input_buffer@.drop_last()
            } else {
                old(self).input_buffer@
            }) && final(self).menu == old(self).menu,
            key matches InputKey::Char(c) ==> r is Ok && final(self).input_buffer@ == old(self).input_buffer@.push(c) && final(self).menu == old(self).menu,
            key == InputKey::Other ==> r is Ok && final(self).input_buffer@ == old(self).input_buffer@ && final(self).menu == old(self).menu,
    {
        match key {
            InputKey::Esc => {
                self.llm_form = None;
                self.input_target = None;
                self.input_buffer = String::new();
                self.menu.set_status("已取消编辑");
                Ok(())
            },
            InputKey::Enter => self.apply_input(),
            InputKey::Backspace => {
                let c = to_chars(self.input_buffer.as_str());
                if c.len() > 0 {
                    self.input_buffer = from_chars_range(&c, 0, c.len() - 1);
                }
                Ok(())
            },
            InputKey::Char(ch) => {
                push_char(&mut self.input_buffer, ch);
                Ok(())
            },
            InputKey::Other => Ok(()),
        }
    }

    /// Applies the typed value. In the LLM form an empty value is refused
    /// (except for the API key); otherwise it is stored and the form moves
    /// on, and after the last step the four values are applied together.
    /// Outside the form the value is applied to its field.
    pub fn apply_input(&mut self) -> (r: Result<(), String>)
        ensures
            input_applied(*old(self), *final(self), r),
    {
        let target = match self.input_target {
            Some(t) => t,
            None => return Err(String::from_str("当前不在输入模式")),
        };
        let value = trim_str(self.input_buffer.as_str());
        let empty = to_chars(value.as_str()).len() == 0;
        match self.llm_form.take() {
            Some(mut form) => {
                if empty && target != EditableField::LlmApiKey {
                    let mut msg = String::from_str(form.current_label());
                    msg.append(" 不能为空");
                    self.llm_form = Some(form);
                    self.menu.set_status(msg.as_str());
                    return Ok(());
                }
                form.set_current_value(value);
                if form.step < 3 {
                    form.step = form.step + 1;
                    let mut msg = String::from_str("LLM 配置表单（");
                    let n = crate::text::u64_to_decimal((form.step + 1) as u64);
                    msg.append(n.as_str());
                    msg.append("/4）：编辑 ");
                    msg.append(form.current_label());
                    self.input_target = Some(form.current_field());
                    self.input_buffer = form.current_value();
                    self.llm_form = Some(form);
                    self.menu.set_status(msg.as_str());
                    return Ok(());
                }
                let action = MenuAction::SetLlmConfig {
                    provider: copy_str(form.provider.as_str()),
                    model: copy_str(form.model.as_str()),
                    api_base: copy_str(form.api_base.as_str()),
                    api_key: copy_str(form.api_key.as_str()),
                };
                let ghost a = action;
                let ghost before = self.menu;
                assert(before == old(self).menu);
                let ghost (p, m, b, k) = form_values(form);
                let result = self.menu.execute(action);
                assert(menu_executed(old(self).menu, self.menu, a));
                assert(a matches MenuAction::SetLlmConfig { provider: ap, model: am, api_base: ab, api_key: ak }
                    && ap@ == p && am@ == m && ab@ == b && ak@ == k);
                if result.ok {
                    self.llm_form = None;
                    self.input_target = None;
                    self.input_buffer = String::new();
                } else {
                    self.llm_form = Some(form);
                }
                assert(menu_executed(old(self).menu, self.menu, a));
                assert(exists|a2: MenuAction|
                    #![trigger menu_executed(old(self).menu, self.menu, a2)]
                    menu_executed(old(self).menu, self.menu, a2));
                Ok(())
            },
            None => {
                proof {
                    crate::text::lemma_trim_idempotent(self.input_buffer@);
                }
                let action = MenuAction::SetField { field: target, value };
                let ghost a = action;
                assert(self.menu == old(self).menu);
                let result = self.menu.execute(action);
                assert(menu_executed(old(self).menu, self.menu, a));
                if result.ok {
                    self.input_target = None;
                    self.input_buffer = String::new();
                }
                Ok(())
            },
        }
    }
}

/// `n` is `o` after the selected entry ran.
pub open spec fn executed_entry(o: TuiState, n: TuiState) -> bool {
    if o.selected == 0 {
        &&& menu_executed(o.menu, n.menu, MenuAction::ToggleLlmEnabled)
        &&& n.selected == o.selected && n.should_quit == o.should_quit
        &&& n.input_target == o.input_target && n.input_buffer@ == o.input_buffer@
    } else if o.selected == 1 {
        &&& menu_executed(o.menu, n.menu, MenuAction::ToggleTextCorrectionEnabled)
        &&& n.selected == o.selected && n.should_quit == o.should_quit
        &&& n.input_target == o.input_target && n.input_buffer@ == o.input_buffer@
    } else if o.selected == 2 {
        form_started(o, n)
    } else if o.selected == 3 {
        &&& menu_executed(o.menu, n.menu, MenuAction::QuitUi)
        &&& n.selected == o.selected && n.should_quit
        &&& n.input_target == o.input_target && n.input_buffer@ == o.input_buffer@
    } else {
        &&& n.menu == o.menu && n.selected == o.selected && n.should_quit == o.should_quit
        &&& n.input_target == o.input_target && n.input_buffer@ == o.input_buffer@
    }
}

/// `n` is `o` with the LLM form opened on the current settings.
pub open spec fn form_started(o: TuiState, n: TuiState) -> bool {
    let c = o.menu.config_view();
    &&& n.llm_form matches Some(f) && f.step == 0 && form_values(f) == (
        c.llm.provider@,
        c.llm.model@,
        c.llm.api_base@,
        c.llm.api_key@,
    )
    &&& n.input_target == Some(EditableField::LlmProvider)
    &&& n.input_buffer@ == c.llm.provider@
    &&& menu_status_set(o.menu, n.menu, "LLM 配置表单（1/4）：编辑 llm.provider"@)
    &&& n.selected == o.selected && n.should_quit == o.should_quit
}

/// `n` and result `r` are what applying the typed value to `o` gives.
pub open spec fn input_applied(o: TuiState, n: TuiState, r: Result<(), String>) -> bool {
    let v = trim(o.input_buffer@);
    &&& n.selected == o.selected && n.should_quit == o.should_quit
    &&& match o.input_target {
        None => r matches Err(e) && e@ == "当前不在输入模式"@ && n.menu == o.menu
            && n.input_buffer@ == o.input_buffer@ && n.input_target is None && form_kept(o, n),
        Some(target) => r is Ok && match o.llm_form {
            Some(f) => if v.len() == 0 && target != EditableField::LlmApiKey {
                &&& menu_status_set(o.menu, n.menu, field_label(step_field(f.step as nat)) + " 不能为空"@)
                &&& form_kept(o, n)
                &&& n.input_target == o.input_target && n.input_buffer@ == o.input_buffer@
            } else if f.step < 3 {
                let step = (f.step + 1) as nat;
                &&& n.llm_form matches Some(g) && g.step == step && form_values(g)
                    == form_values_with(f, v)
                &&& n.input_target == Some(step_field(step))
                &&& n.input_buffer@ == form_value(n.llm_form->0, step_field(step))
                &&& menu_status_set(o.menu, n.menu, form_step_status(step, field_label(step_field(step))))
            } else {
                let (p, m, b, k) = form_values_with(f, v);
                exists|a: MenuAction|
                    #![trigger menu_executed(o.menu, n.menu, a)]
                    {
                        &&& menu_executed(o.menu, n.menu, a)
                        &&& (a matches MenuAction::SetLlmConfig {
                            provider: ap,
                            model: am,
                            api_base: ab,
                            api_key: ak,
                        } && ap@ == p && am@ == m && ab@ == b && ak@ == k)
                        &&& crate::menu_core::settings_after(o.menu.config_view(), a) is Ok ==> {
                            &&& n.llm_form is None
                            &&& n.input_target is None
                            &&& n.input_buffer@ == Seq::<char>::empty()
                        }
                        &&& crate::menu_core::settings_after(o.menu.config_view(), a) is Err ==> {
                            &&& n.llm_form matches Some(g) && g.step == f.step && form_values(g)
                                == form_values_with(f, v)
                            &&& n.input_target == o.input_target
                            &&& n.input_buffer@ == o.input_buffer@
                        }
                    }
            },
            None => {
                &&& exists|a: MenuAction|
                    #![trigger menu_executed(o.menu, n.menu, a)]
                    menu_executed(o.menu, n.menu, a) && (a matches MenuAction::SetField {
                        field,
                        value,
                    } && field == target && value@ == v)
                &&& v.len() > 0 ==> n.input_target is None && n.input_buffer@ == Seq::<char>::empty()
                &&& v.len() == 0 ==> n.input_target == o.input_target && n.input_buffer@ == o.input_buffer@
                &&& n.llm_form is None
            },
        },
    }
}

/// The form is as it was.
pub open spec fn form_kept(o: TuiState, n: TuiState) -> bool {
    match o.llm_form {
        Some(f) => n.llm_form matches Some(g) && g.step == f.step && form_values(g) == form_values(f),
        None => n.llm_form is None,
    }
}

} // verus!
