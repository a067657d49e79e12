//! The content registry: an immutable mapping from screen identity to display
//! text, control labels and routing tokens, fixed for the life of the process.

use vstd::prelude::*;

verus! {

/// Identity of a distinct display state: the root menu or a content screen.
#[derive(Clone, Copy, Debug, PartialEq, Eq, Structural)]
pub enum ScreenId {
    Menu,
    HowToContribute,
    RepositoryLink,
    TaskBoard,
    ProjectBrief,
}

/// One content screen's registry entry: the screen it names, the routing
/// token of the control leading to it, that control's visible label, and the
/// screen's display text (verbatim in the gateway's markup dialect).
#[derive(Clone, Debug, PartialEq, Eq)]
pub struct ScreenEntry {
    pub screen: ScreenId,
    pub token: String,
    pub label: String,
    pub text: String,
}

/// The registry itself. `entries` holds the content screens in their declared
/// order, which is also the order of the menu's controls.
#[derive(Clone, Debug, PartialEq, Eq)]
pub struct ContentRegistry {
    /// Display text of the root menu screen.
    pub menu_text: String,
    /// The content screens, in declared (menu) order.
    pub entries: Vec<ScreenEntry>,
    /// Visible label of the control that returns to the menu.
    pub back_label: String,
    /// Reserved routing token of the back control.
    pub back_token: String,
    /// The one command string that opens the menu.
    pub entry_command: String,
    /// Neutral text shown when an unknown control token arrives.
    pub fallback_text: String,
}

impl ContentRegistry {
    /// Well-formedness: routing tokens are pairwise distinct, each screen has
    /// at most one entry, no entry names the root menu, and no token collides
    /// with the reserved back token.
    pub open spec fn wf(self) -> bool {
        &&& forall|i: int, j: int|
            #![trigger self.entries@[i], self.entries@[j]]
            0 <= i < j < self.entries@.len() ==> self.entries@[i].token@ != self.entries@[j].token@
        &&& forall|i: int, j: int|
            #![trigger self.entries@[i], self.entries@[j]]
            0 <= i < j < self.entries@.len() ==> self.entries@[i].screen != self.entries@[j].screen
        &&& forall|i: int|
            0 <= i < self.entries@.len() ==> (#[trigger] self.entries@[i]).screen != ScreenId::Menu
        &&& forall|i: int|
            0 <= i < self.entries@.len() ==> (#[trigger] self.entries@[i]).token@ != self.back_token@
    }

    /// Whether the registry has an entry for screen `s`.
    pub open spec fn defines(self, s: ScreenId) -> bool {
        exists|i: int| 0 <= i < self.entries@.len() && (#[trigger] self.entries@[i]).screen == s
    }

    /// The index of screen `s`'s entry.
    pub open spec fn screen_index(self, s: ScreenId) -> int
        recommends
            self.defines(s),
    {
        choose|i: int| 0 <= i < self.entries@.len() && (#[trigger] self.entries@[i]).screen == s
    }

    /// The display text of screen `s`, as the registry stores it.
    pub open spec fn text_of(self, s: ScreenId) -> Seq<char>
        recommends
            s == ScreenId::Menu || self.defines(s),
    {
        if s == ScreenId::Menu {
            self.menu_text@
        } else {
            self.entries@[self.screen_index(s)].text@
        }
    }

    /// Whether routing token `t` names some content screen.
    pub open spec fn resolves(self, t: Seq<char>) -> bool {
        exists|i: int| 0 <= i < self.entries@.len() && (#[trigger] self.entries@[i]).token@ == t
    }

    /// The index of the entry whose token is `t`.
    pub open spec fn token_index(self, t: Seq<char>) -> int
        recommends
            self.resolves(t),
    {
        choose|i: int| 0 <= i < self.entries@.len() && (#[trigger] self.entries@[i]).token@ == t
    }

    /// The content screen that routing token `t` names.
    pub open spec fn screen_of_token(self, t: Seq<char>) -> ScreenId
        recommends
            self.resolves(t),
    {
        self.entries@[self.token_index(t)].screen
    }
}

impl ContentRegistry {
    /// The content shipped with the bot: the four content screens in their
    /// declared menu order, the back control, and the one entry command.
    /// Display texts are verbatim in the gateway's markup dialect.
    pub fn standard() -> (r: ContentRegistry)
        ensures
            r.wf(),
            r.entry_command@ == "/info"@,
            r.back_token@ == "back_to_menu"@,
            r.back_label@ == "⬅️ Назад в меню"@,
            r.menu_text@ == "Информация о проекте"@,
            r.fallback_text@ == "Неизвестная команда"@,
            r.entries@.len() == 4,
            r.entries@[0].screen == ScreenId::HowToContribute,
            r.entries@[0].token@ == "github_info"@,
            r.entries@[0].label@ == "Как работать в github"@,
            r.entries@[0].text@ == HOW_TO_CONTRIBUTE_TEXT@,
            r.entries@[1].screen == ScreenId::RepositoryLink,
            r.entries@[1].token@ == "repository"@,
            r.entries@[1].label@ == "Репозиторий"@,
            r.entries@[1].text@ == REPOSITORY_LINK_TEXT@,
            r.entries@[2].screen == ScreenId::TaskBoard,
            r.entries@[2].token@ == "board"@,
            r.entries@[2].label@ == "Доска YouGile"@,
            r.entries@[2].text@ == TASK_BOARD_TEXT@,
            r.entries@[3].screen == ScreenId::ProjectBrief,
            r.entries@[3].token@ == "project_info"@,
            r.entries@[3].label@ == "Информация о проекте"@,
            r.entries@[3].text@ == PROJECT_BRIEF_TEXT@,
    {
        let mut entries: Vec<ScreenEntry> = Vec::new();
        entries.push(
            ScreenEntry {
                screen: ScreenId::HowToContribute,
                token: "github_info".to_owned(),
                label: "Как работать в github".to_owned(),
                text: HOW_TO_CONTRIBUTE_TEXT.to_owned(),
            },
        );
        entries.push(
            ScreenEntry {
                screen: ScreenId::RepositoryLink,
                token: "repository".to_owned(),
                label: "Репозиторий".to_owned(),
                text: REPOSITORY_LINK_TEXT.to_owned(),
            },
        );
        entries.push(
            ScreenEntry {
                screen: ScreenId::TaskBoard,
                token: "board".to_owned(),
                label: "Доска YouGile".to_owned(),
                text: TASK_BOARD_TEXT.to_owned(),
            },
        );
        entries.push(
            ScreenEntry {
                screen: ScreenId::ProjectBrief,
                token: "project_info".to_owned(),
                label: "Информация о проекте".to_owned(),
                text: PROJECT_BRIEF_TEXT.to_owned(),
            },
        );
        let r = ContentRegistry {
            menu_text: "Информация о проекте".to_owned(),
            entries,
            back_label: "⬅️ Назад в меню".to_owned(),
            back_token: "back_to_menu".to_owned(),
            entry_command: "/info".to_owned(),
            fallback_text: "Неизвестная команда".to_owned(),
        };
        proof {
            reveal_strlit("github_info");
            reveal_strlit("repository");
            reveal_strlit("board");
            reveal_strlit("project_info");
            reveal_strlit("back_to_menu");
            let es = r.entries@;
            assert(es.len() == 4);
            assert(es[0].token@ == "github_info"@ && es[0].screen == ScreenId::HowToContribute);
            assert(es[1].token@ == "repository"@ && es[1].screen == ScreenId::RepositoryLink);
            assert(es[2].token@ == "board"@ && es[2].screen == ScreenId::TaskBoard);
            assert(es[3].token@ == "project_info"@ && es[3].screen == ScreenId::ProjectBrief);
            assert(r.back_token@ == "back_to_menu"@);
            assert("github_info"@.len() == 11);
            assert("repository"@.len() == 10);
            assert("board"@.len() == 5);
            assert("project_info"@.len() == 12);
            assert("back_to_menu"@.len() == 12);
            assert("project_info"@[0] == 'p' && "back_to_menu"@[0] == 'b');
            assert forall|i: int, j: int|
                #![trigger es[i], es[j]]
                0 <= i < j < es.len() implies es[i].token@ != es[j].token@ && es[i].screen
                != es[j].screen by {
                assert(es[0].token@ != es[1].token@);
                assert(es[0].token@ != es[2].token@);
                assert(es[0].token@ != es[3].token@);
                assert(es[1].token@ != es[2].token@);
                assert(es[1].token@ != es[3].token@);
                assert(es[2].token@ != es[3].token@);
            }
            assert forall|i: int| 0 <= i < es.len() implies (#[trigger] es[i]).screen
                != ScreenId::Menu && es[i].token@ != r.back_token@ by {
                assert(es[0].token@ != r.back_token@);
                assert(es[1].token@ != r.back_token@);
                assert(es[2].token@ != r.back_token@);
                assert(es[3].token@ != r.back_token@);
            }
            assert(r.wf());
        }
        r
    }
}

/// Display text of the contribution-workflow screen.
pub const HOW_TO_CONTRIBUTE_TEXT: &'static str = "1\\. 🌿 Создаешь ветку у себя и вносишь изменения 🛠\n2\\. 🚀 Делаешь пулл реквест \\(PR\\) в мой репозиторий 📥\n3\\. ✅ Я принимаю реквест и вливаю изменения \\(Merge\\) 🤝\n4\\. 🔄 Заходишь на GitHub в свой репозиторий и нажимаешь кнопку Sync fork, чтобы подтянуть изменения к себе 🏁";

/// Display text of the repository-link screen.
pub const REPOSITORY_LINK_TEXT: &'static str = "🔗 *Ссылка на репозиторий:*\n[https://github\\.com/yuoknow/godo\\-app](https://github.com/yuoknow/godo-app)";

/// Display text of the task-board screen.
pub const TASK_BOARD_TEXT: &'static str = "📋 *Доска YouGile:*\nВсе текущие задачи и спринты находятся здесь: [https://ru\\.yougile\\.com/team/74ea09ab0004/GoDo\\-App](https://ru.yougile.com/team/74ea09ab0004/GoDo-App)";

/// Display text of the project-brief screen.
pub const PROJECT_BRIEF_TEXT: &'static str = "ℹ️ *О проекте:*\nПоиск и выбор мастер\\-классов\\. Мы хотим, чтобы пользователь:\n\n• Искал мастер\\-классы в каталоге по категориям, ключевым словам, видел последние добавленные или самые популярные\\. С помощью исследований тебе нужно определить, какие нужны категории и как должен работать поиск\\.\n• Просматривал информацию о каждом мастер\\-классе, включая описание, информацию об инструкторе, длительность\\.\n• Видил разбивку хобби на категории — и чтобы они визуализировали разные направления деятельности, такие как музыка, кино, танцы, фотография и так далее\\.\n\n*Регистрация на мастер\\-класс:* Важно, чтобы пользователь мог найти и забронировать место на конкретный мастер\\-класс, выбрать дату и время из предложенных вариантов\\. Один и тот же мастер\\-класс может проводиться в разные даты, поэтому стоит уточнить, какой нужен слот\\. К этому моменту пользователь уже будет зарегистрирован в приложении, поэтому не нужно заново вводить данные пользователя\\.\n\n*Участие в мастер\\-классе:* У пользователя должна быть возможность поучаствовать в онлайн\\-мастер\\-классе через видеоконференцию в Zoom\\. В карточке мероприятия нужна точка входа в конференцию\\. Доступ должен быть простой — приходит уведомление о том, что скоро начнётся мероприятие\\. Мы хотим протестировать групповые онлайн мастер\\-классы, чтобы пользователи могли задать вопросы эксперту, пообщаться друг с другом по ходу мастер\\-класса\\. Это — альтернатива предзаписанным видео, где человек остаётся один на один с картинкой\\.";

/// In a well-formed registry an entry's token determines its index, so a
/// token resolves to exactly one screen.
pub proof fn lemma_token_determines_index(reg: ContentRegistry, i: int)
    requires
        reg.wf(),
        0 <= i < reg.entries@.len(),
    ensures
        reg.resolves(reg.entries@[i].token@),
        reg.token_index(reg.entries@[i].token@) == i,
        reg.screen_of_token(reg.entries@[i].token@) == reg.entries@[i].screen,
{
    let t = reg.entries@[i].token@;
    assert(reg.resolves(t));
    let j = reg.token_index(t);
    if i < j {
        assert(reg.entries@[i].token@ != reg.entries@[j].token@);
    } else if j < i {
        assert(reg.entries@[j].token@ != reg.entries@[i].token@);
    }
}

/// In a well-formed registry an entry's screen determines its index, so a
/// defined screen has exactly one entry.
pub proof fn lemma_screen_determines_index(reg: ContentRegistry, i: int)
    requires
        reg.wf(),
        0 <= i < reg.entries@.len(),
    ensures
        reg.defines(reg.entries@[i].screen),
        reg.screen_index(reg.entries@[i].screen) == i,
{
    let s = reg.entries@[i].screen;
    assert(reg.defines(s));
    let j = reg.screen_index(s);
    if i < j {
        assert(reg.entries@[i].screen != reg.entries@[j].screen);
    } else if j < i {
        assert(reg.entries@[j].screen != reg.entries@[i].screen);
    }
}

/// A resolved token's screen is defined by the registry, and its entry index
/// is the token's own.
pub proof fn lemma_resolved_screen_defined(reg: ContentRegistry, t: Seq<char>)
    requires
        reg.wf(),
        reg.resolves(t),
    ensures
        reg.defines(reg.screen_of_token(t)),
        reg.screen_index(reg.screen_of_token(t)) == reg.token_index(t),
        reg.screen_of_token(t) != ScreenId::Menu,
        reg.text_of(reg.screen_of_token(t)) == reg.entries@[reg.token_index(t)].text@,
{
    let i = reg.token_index(t);
    assert(0 <= i < reg.entries@.len() && reg.entries@[i].token@ == t);
    lemma_screen_determines_index(reg, i);
}

/// Resolve a control's routing token to the content screen it names, if any.
pub fn resolve_token(reg: &ContentRegistry, token: &String) -> (r: Option<ScreenId>)
    requires
        reg.wf(),
    ensures
        match r {
            Some(s) => reg.resolves(token@) && s == reg.screen_of_token(token@),
            None => !reg.resolves(token@),
        },
{
    let n = reg.entries.len();
    let mut i: usize = 0;
    while i < n
        invariant
            reg.wf(),
            n == reg.entries@.len(),
            0 <= i <= n,
            forall|j: int| 0 <= j < i ==> (#[trigger] reg.entries@[j]).token@ != token@,
        decreases n - i,
    {
        let e = &reg.entries[i];
        if e.token == *token {
            proof {
                lemma_token_determines_index(*reg, i as int);
            }
            return Some(e.screen);
        }
        i = i + 1;
    }
    None
}

} // verus!
