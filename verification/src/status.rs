//! What the tray shows: the status, its lamp colour, and the interface text in
//! the player's display language.

use vstd::prelude::*;
use vstd::string::*;

verus! {

/// What the guard is doing this round.
#[derive(Clone, Copy, PartialEq, Eq, Debug, Structural)]
pub enum Status {
    Paused,
    NoGame,
    Background,
    Closing,
    NoEnglish,
    Guarding,
    Typing,
}

impl Status {
    /// The lamp colour of a status: grey while idle, red when no safe layout is
    /// installed, green while guarding, orange while typing.
    pub open spec fn color(self) -> Seq<u8> {
        match self {
            Status::Paused | Status::NoGame | Status::Background | Status::Closing => seq![128u8, 128u8, 128u8],
            Status::NoEnglish => seq![220u8, 50u8, 50u8],
            Status::Guarding => seq![40u8, 180u8, 80u8],
            Status::Typing => seq![240u8, 160u8, 30u8],
        }
    }

    /// The lamp colour.
    pub fn rgb(self) -> (c: [u8; 3])
        ensures
            c@ == self.color(),
    {
        let c = match self {
            Status::Paused | Status::NoGame | Status::Background | Status::Closing => [128, 128, 128],
            Status::NoEnglish => [220, 50, 50],
            Status::Guarding => [40, 180, 80],
            Status::Typing => [240, 160, 30],
        };
        assert(c@ =~= self.color());
        c
    }

    /// The interface text describing a status.
    pub open spec fn body(self, s: Strings) -> &'static str {
        match self {
            Status::Paused => s.paused,
            Status::NoGame => s.no_game,
            Status::Background => s.background,
            Status::Closing => s.closing,
            Status::NoEnglish => s.no_english,
            Status::Guarding => s.guarding,
            Status::Typing => s.typing,
        }
    }

    /// The tooltip: the tool's name, a colon, and the status text.
    pub fn text(self, s: &Strings) -> (t: String)
        ensures
            t@ == "pz-ime-guard: "@ + self.body(*s)@,
    {
        let body = match self {
            Status::Paused => s.paused,
            Status::NoGame => s.no_game,
            Status::Background => s.background,
            Status::Closing => s.closing,
            Status::NoEnglish => s.no_english,
            Status::Guarding => s.guarding,
            Status::Typing => s.typing,
        };
        let mut t = String::from_str("pz-ime-guard: ");
        t.append(body);
        t
    }
}

/// The interface text of one display language.
#[derive(Clone, Copy, PartialEq, Eq, Debug)]
pub struct Strings {
    pub paused: &'static str,
    pub no_game: &'static str,
    pub background: &'static str,
    pub closing: &'static str,
    pub no_english: &'static str,
    pub guarding: &'static str,
    pub typing: &'static str,
    pub no_safe_notice: &'static str,
    pub already_running: &'static str,
    pub old_running: &'static str,
    pub menu_pause: &'static str,
    pub menu_quit: &'static str,
    pub menu_workshop: &'static str,
    pub menu_github: &'static str,
    pub menu_check_updates: &'static str,
    pub menu_restore_desktop: &'static str,
    pub menu_startup: &'static str,
    pub startup_failed: &'static str,
    pub update_available: &'static str,
    pub notice: &'static str,
}

/// The display languages the interface text exists in.
#[derive(Clone, Copy, PartialEq, Eq, Debug, Structural)]
pub enum UiLanguage {
    English,
    TraditionalChinese,
    SimplifiedChinese,
    Japanese,
    Korean,
}

/// The interface language for a Windows display language identifier: Taiwan,
/// Hong Kong and Macau read traditional Chinese, mainland China and Singapore
/// simplified Chinese, any Japanese or Korean identifier its language, and
/// everything else English.
pub open spec fn ui_language_of(id: u16) -> UiLanguage {
    if id == 0x0404 || id == 0x0C04 || id == 0x1404 {
        UiLanguage::TraditionalChinese
    } else if id == 0x0804 || id == 0x1004 {
        UiLanguage::SimplifiedChinese
    } else if id % 0x400 == 0x11 {
        UiLanguage::Japanese
    } else if id % 0x400 == 0x12 {
        UiLanguage::Korean
    } else {
        UiLanguage::English
    }
}

/// Chooses the interface language for a display language identifier.
pub fn ui_language(id: u16) -> (l: UiLanguage)
    ensures
        l == ui_language_of(id),
{
    if id == 0x0404 || id == 0x0C04 || id == 0x1404 {
        UiLanguage::TraditionalChinese
    } else if id == 0x0804 || id == 0x1004 {
        UiLanguage::SimplifiedChinese
    } else if id % 0x400 == 0x11 {
        UiLanguage::Japanese
    } else if id % 0x400 == 0x12 {
        UiLanguage::Korean
    } else {
        UiLanguage::English
    }
}

/// The interface text of each language.
pub open spec fn strings_of(l: UiLanguage) -> Strings {
    match l {
        UiLanguage::English => Strings {
            paused: "paused",
            no_game: "waiting for Project Zomboid",
            background: "PZ not in foreground",
            closing: "Project Zomboid is closing — guard stopped",
            no_english: "no non-IME keyboard installed — add English (US) in Windows settings",
            guarding: "safe layout active (movement keys work)",
            typing: "typing, your IME restored",
            no_safe_notice: "No English (US) — or any other non-IME — keyboard is installed, so pz-ime-guard has nothing to switch to and cannot protect your keys.\n\nWindows Settings → Time & language → Language & region → Add a language → English (United States), or add the US keyboard under your current language's options.\n\nOpen Settings now?",
            already_running: "pz-ime-guard is already running — check the system tray (^ overflow). This copy will exit.",
            old_running: "An older pz-ime-guard is still running and could not be closed automatically.\n\nRight-click its icon in the system tray (^ overflow) → Quit, then open this copy again.",
            menu_pause: "Pause",
            menu_quit: "Quit",
            menu_workshop: "Workshop page",
            menu_github: "GitHub (source / issues)",
            menu_check_updates: "Check for updates (on start, daily)",
            menu_restore_desktop: "Restore my IME when leaving the game",
            menu_startup: "Start when I sign in to Windows",
            startup_failed: "Could not change the Windows startup shortcut:\n\n{error}",
            update_available: "pz-ime-guard {tag} is available (you have {current}).\n\nOpen the download page?",
            notice: "pz-ime-guard is now running in the system tray (it may be hidden under the ^ arrow).\nThe lamp on the keycap icon: green = English layout, orange = typing (your IME restored), grey = waiting for Project Zomboid.\nRight-click the icon to pause or quit. This notice is shown only once.",
        },
        UiLanguage::TraditionalChinese => Strings {
            paused: "已暫停",
            no_game: "等待 Project Zomboid 啟動",
            background: "PZ 不在前景",
            closing: "Project Zomboid 正在關閉，已停止守護",
            no_english: "系統只有輸入法鍵盤，請到 Windows 設定新增英文（美國）鍵盤",
            guarding: "英文鍵盤中，移動鍵安全",
            typing: "打字中，已切回你的輸入法",
            no_safe_notice: "系統沒有安裝英文（美國）或其他非輸入法的鍵盤，pz-ime-guard 沒有可以切過去的配置，無法保護你的按鍵。\n\n請到 Windows 設定 → 時間與語言 → 語言與地區 → 新增語言 → English (United States)，或在「中文（台灣）」的語言選項裡新增「美式鍵盤」。\n\n要現在開啟設定嗎？",
            already_running: "pz-ime-guard 已經在執行中，請看系統匣（^ 隱藏區）。這個副本會直接結束。",
            old_running: "舊版 pz-ime-guard 還在執行，無法自動關閉。\n\n請在系統匣（^ 隱藏區）對它的圖示按右鍵 →「結束」，再重新開啟這一份。",
            menu_pause: "暫停",
            menu_quit: "結束",
            menu_workshop: "Workshop 頁面",
            menu_github: "GitHub（原始碼／回報問題）",
            menu_check_updates: "自動檢查更新（啟動時與每日）",
            menu_restore_desktop: "切出遊戲時還原桌面的輸入法",
            menu_startup: "登入 Windows 時自動啟動",
            startup_failed: "無法變更自動啟動的捷徑：\n\n{error}",
            update_available: "有新版 pz-ime-guard {tag}（目前 {current}）。\n\n要開啟下載頁嗎？",
            notice: "pz-ime-guard 已在系統匣運作（可能收在 ^ 隱藏區）。\n鍵帽圖示上的小燈：綠＝英文鍵盤、橘＝打字中已切回你的輸入法、灰＝等待 Project Zomboid。\n右鍵圖示可暫停或結束。此訊息只顯示一次。",
        },
        UiLanguage::SimplifiedChinese => Strings {
            paused: "已暂停",
            no_game: "等待 Project Zomboid 启动",
            background: "PZ 不在前台",
            closing: "Project Zomboid 正在关闭，已停止守护",
            no_english: "系统只有输入法键盘，请到 Windows 设置新增英语（美国）键盘",
            guarding: "英文键盘中，移动键安全",
            typing: "打字中，已切回你的输入法",
            no_safe_notice: "系统没有安装英语（美国）或其他非输入法的键盘，pz-ime-guard 没有可以切换过去的布局，无法保护你的按键。\n\n请到 Windows 设置 → 时间和语言 → 语言和区域 → 添加语言 → English (United States)，或在「中文（简体，中国）」的语言选项里添加「美式键盘」。\n\n现在打开设置吗？",
            already_running: "pz-ime-guard 已经在运行中，请看系统托盘（^ 隐藏区）。此副本将直接退出。",
            old_running: "旧版 pz-ime-guard 仍在运行，无法自动关闭。\n\n请在系统托盘（^ 隐藏区）右键它的图标 →「退出」，然后重新打开这一份。",
            menu_pause: "暂停",
            menu_quit: "退出",
            menu_workshop: "创意工坊页面",
            menu_github: "GitHub（源码／反馈问题）",
            menu_check_updates: "自动检查更新（启动时与每日）",
            menu_restore_desktop: "切出游戏时还原桌面的输入法",
            menu_startup: "登录 Windows 时自动启动",
            startup_failed: "无法变更自动启动的快捷方式：\n\n{error}",
            update_available: "有新版 pz-ime-guard {tag}（当前 {current}）。\n\n要打开下载页吗？",
            notice: "pz-ime-guard 已在系统托盘运行（可能收在 ^ 隐藏区）。\n键帽图标上的小灯：绿＝英文键盘、橙＝打字中已切回你的输入法、灰＝等待 Project Zomboid。\n右键图标可暂停或退出。此消息只显示一次。",
        },
        UiLanguage::Japanese => Strings {
            paused: "一時停止中",
            no_game: "Project Zomboid の起動を待機中",
            background: "PZ が前面にありません",
            closing: "Project Zomboid を終了中、保護を停止しました",
            no_english: "IME 以外のキーボードがありません。Windows 設定で英語（米国）を追加してください",
            guarding: "英語配列中、移動キーは安全",
            typing: "入力中、IME を復帰済み",
            no_safe_notice: "英語（米国）などの IME 以外のキーボードがインストールされていないため、pz-ime-guard には切り替え先がなく、キーを保護できません。\n\nWindows 設定 → 時刻と言語 → 言語と地域 → 言語の追加 → English (United States)、または「日本語」の言語オプションで「英語キーボード」を追加してください。\n\n今すぐ設定を開きますか？",
            already_running: "pz-ime-guard はすでに動作中です。タスクトレイ（^ の中）を確認してください。このコピーは終了します。",
            old_running: "古いバージョンの pz-ime-guard が動作中で、自動で終了できませんでした。\n\nタスクトレイ（^ の中）のアイコンを右クリック →「終了」してから、このコピーをもう一度開いてください。",
            menu_pause: "一時停止",
            menu_quit: "終了",
            menu_workshop: "Workshop ページ",
            menu_github: "GitHub（ソース／不具合報告）",
            menu_check_updates: "更新を自動確認（起動時と毎日）",
            menu_restore_desktop: "ゲームから離れたら元の IME に戻す",
            menu_startup: "Windows サインイン時に自動実行",
            startup_failed: "スタートアップのショートカットを変更できませんでした：\n\n{error}",
            update_available: "新しい pz-ime-guard {tag} があります（現在 {current}）。\n\nダウンロードページを開きますか？",
            notice: "pz-ime-guard はタスクトレイで動作中です（^ の中に隠れている場合があります）。\nキーキャップアイコンのランプ：緑＝英語配列、橙＝入力中（IME 復帰済み）、灰＝Project Zomboid を待機中。\nアイコンを右クリックで一時停止・終了。この案内は初回のみ表示されます。",
        },
        UiLanguage::Korean => Strings {
            paused: "일시 정지됨",
            no_game: "Project Zomboid 실행 대기 중",
            background: "PZ가 전면에 있지 않음",
            closing: "Project Zomboid 종료 중, 보호를 중지했습니다",
            no_english: "IME가 아닌 키보드가 없습니다. Windows 설정에서 영어(미국)를 추가하세요",
            guarding: "영어 배열 활성, 이동 키 안전",
            typing: "입력 중, IME 복원됨",
            no_safe_notice: "영어(미국) 등 IME가 아닌 키보드가 설치되어 있지 않아 pz-ime-guard가 전환할 배열이 없고 키를 보호할 수 없습니다.\n\nWindows 설정 → 시간 및 언어 → 언어 및 지역 → 언어 추가 → English (United States), 또는 「한국어」 언어 옵션에서 「영어 키보드」를 추가하세요.\n\n지금 설정을 열까요?",
            already_running: "pz-ime-guard가 이미 실행 중입니다. 시스템 트레이(^ 안)를 확인하세요. 이 사본은 종료됩니다.",
            old_running: "이전 버전의 pz-ime-guard가 실행 중이며 자동으로 종료하지 못했습니다.\n\n시스템 트레이(^ 안)의 아이콘을 우클릭 →「종료」한 뒤 이 사본을 다시 여세요.",
            menu_pause: "일시 정지",
            menu_quit: "종료",
            menu_workshop: "Workshop 페이지",
            menu_github: "GitHub(소스／문제 제보)",
            menu_check_updates: "업데이트 자동 확인(시작 시·매일)",
            menu_restore_desktop: "게임에서 벗어나면 원래 IME로 복원",
            menu_startup: "Windows 로그인 시 자동 실행",
            startup_failed: "시작 프로그램 바로 가기를 변경하지 못했습니다:\n\n{error}",
            update_available: "새 버전 pz-ime-guard {tag}가 있습니다(현재 {current}).\n\n다운로드 페이지를 열까요?",
            notice: "pz-ime-guard가 시스템 트레이에서 실행 중입니다(^ 안에 숨겨져 있을 수 있음).\n키캡 아이콘의 램프: 초록＝영어 배열, 주황＝입력 중(IME 복원됨), 회색＝Project Zomboid 대기 중.\n아이콘을 우클릭하면 일시 정지／종료할 수 있습니다. 이 안내는 처음 한 번만 표시됩니다.",
        },
    }
}

/// The interface text of a language.
pub fn strings(l: UiLanguage) -> (s: Strings)
    ensures
        s == strings_of(l),
{
    match l {
        UiLanguage::English => Strings {
            paused: "paused",
            no_game: "waiting for Project Zomboid",
            background: "PZ not in foreground",
            closing: "Project Zomboid is closing — guard stopped",
            no_english: "no non-IME keyboard installed — add English (US) in Windows settings",
            guarding: "safe layout active (movement keys work)",
            typing: "typing, your IME restored",
            no_safe_notice: "No English (US) — or any other non-IME — keyboard is installed, so pz-ime-guard has nothing to switch to and cannot protect your keys.\n\nWindows Settings → Time & language → Language & region → Add a language → English (United States), or add the US keyboard under your current language's options.\n\nOpen Settings now?",
            already_running: "pz-ime-guard is already running — check the system tray (^ overflow). This copy will exit.",
            old_running: "An older pz-ime-guard is still running and could not be closed automatically.\n\nRight-click its icon in the system tray (^ overflow) → Quit, then open this copy again.",
            menu_pause: "Pause",
            menu_quit: "Quit",
            menu_workshop: "Workshop page",
            menu_github: "GitHub (source / issues)",
            menu_check_updates: "Check for updates (on start, daily)",
            menu_restore_desktop: "Restore my IME when leaving the game",
            menu_startup: "Start when I sign in to Windows",
            startup_failed: "Could not change the Windows startup shortcut:\n\n{error}",
            update_available: "pz-ime-guard {tag} is available (you have {current}).\n\nOpen the download page?",
            notice: "pz-ime-guard is now running in the system tray (it may be hidden under the ^ arrow).\nThe lamp on the keycap icon: green = English layout, orange = typing (your IME restored), grey = waiting for Project Zomboid.\nRight-click the icon to pause or quit. This notice is shown only once.",
        },
        UiLanguage::TraditionalChinese => Strings {
            paused: "已暫停",
            no_game: "等待 Project Zomboid 啟動",
            background: "PZ 不在前景",
            closing: "Project Zomboid 正在關閉，已停止守護",
            no_english: "系統只有輸入法鍵盤，請到 Windows 設定新增英文（美國）鍵盤",
            guarding: "英文鍵盤中，移動鍵安全",
            typing: "打字中，已切回你的輸入法",
            no_safe_notice: "系統沒有安裝英文（美國）或其他非輸入法的鍵盤，pz-ime-guard 沒有可以切過去的配置，無法保護你的按鍵。\n\n請到 Windows 設定 → 時間與語言 → 語言與地區 → 新增語言 → English (United States)，或在「中文（台灣）」的語言選項裡新增「美式鍵盤」。\n\n要現在開啟設定嗎？",
            already_running: "pz-ime-guard 已經在執行中，請看系統匣（^ 隱藏區）。這個副本會直接結束。",
            old_running: "舊版 pz-ime-guard 還在執行，無法自動關閉。\n\n請在系統匣（^ 隱藏區）對它的圖示按右鍵 →「結束」，再重新開啟這一份。",
            menu_pause: "暫停",
            menu_quit: "結束",
            menu_workshop: "Workshop 頁面",
            menu_github: "GitHub（原始碼／回報問題）",
            menu_check_updates: "自動檢查更新（啟動時與每日）",
            menu_restore_desktop: "切出遊戲時還原桌面的輸入法",
            menu_startup: "登入 Windows 時自動啟動",
            startup_failed: "無法變更自動啟動的捷徑：\n\n{error}",
            update_available: "有新版 pz-ime-guard {tag}（目前 {current}）。\n\n要開啟下載頁嗎？",
            notice: "pz-ime-guard 已在系統匣運作（可能收在 ^ 隱藏區）。\n鍵帽圖示上的小燈：綠＝英文鍵盤、橘＝打字中已切回你的輸入法、灰＝等待 Project Zomboid。\n右鍵圖示可暫停或結束。此訊息只顯示一次。",
        },
        UiLanguage::SimplifiedChinese => Strings {
            paused: "已暂停",
            no_game: "等待 Project Zomboid 启动",
            background: "PZ 不在前台",
            closing: "Project Zomboid 正在关闭，已停止守护",
            no_english: "系统只有输入法键盘，请到 Windows 设置新增英语（美国）键盘",
            guarding: "英文键盘中，移动键安全",
            typing: "打字中，已切回你的输入法",
            no_safe_notice: "系统没有安装英语（美国）或其他非输入法的键盘，pz-ime-guard 没有可以切换过去的布局，无法保护你的按键。\n\n请到 Windows 设置 → 时间和语言 → 语言和区域 → 添加语言 → English (United States)，或在「中文（简体，中国）」的语言选项里添加「美式键盘」。\n\n现在打开设置吗？",
            already_running: "pz-ime-guard 已经在运行中，请看系统托盘（^ 隐藏区）。此副本将直接退出。",
            old_running: "旧版 pz-ime-guard 仍在运行，无法自动关闭。\n\n请在系统托盘（^ 隐藏区）右键它的图标 →「退出」，然后重新打开这一份。",
            menu_pause: "暂停",
            menu_quit: "退出",
            menu_workshop: "创意工坊页面",
            menu_github: "GitHub（源码／反馈问题）",
            menu_check_updates: "自动检查更新（启动时与每日）",
            menu_restore_desktop: "切出游戏时还原桌面的输入法",
            menu_startup: "登录 Windows 时自动启动",
            startup_failed: "无法变更自动启动的快捷方式：\n\n{error}",
            update_available: "有新版 pz-ime-guard {tag}（当前 {current}）。\n\n要打开下载页吗？",
            notice: "pz-ime-guard 已在系统托盘运行（可能收在 ^ 隐藏区）。\n键帽图标上的小灯：绿＝英文键盘、橙＝打字中已切回你的输入法、灰＝等待 Project Zomboid。\n右键图标可暂停或退出。此消息只显示一次。",
        },
        UiLanguage::Japanese => Strings {
            paused: "一時停止中",
            no_game: "Project Zomboid の起動を待機中",
            background: "PZ が前面にありません",
            closing: "Project Zomboid を終了中、保護を停止しました",
            no_english: "IME 以外のキーボードがありません。Windows 設定で英語（米国）を追加してください",
            guarding: "英語配列中、移動キーは安全",
            typing: "入力中、IME を復帰済み",
            no_safe_notice: "英語（米国）などの IME 以外のキーボードがインストールされていないため、pz-ime-guard には切り替え先がなく、キーを保護できません。\n\nWindows 設定 → 時刻と言語 → 言語と地域 → 言語の追加 → English (United States)、または「日本語」の言語オプションで「英語キーボード」を追加してください。\n\n今すぐ設定を開きますか？",
            already_running: "pz-ime-guard はすでに動作中です。タスクトレイ（^ の中）を確認してください。このコピーは終了します。",
            old_running: "古いバージョンの pz-ime-guard が動作中で、自動で終了できませんでした。\n\nタスクトレイ（^ の中）のアイコンを右クリック →「終了」してから、このコピーをもう一度開いてください。",
            menu_pause: "一時停止",
            menu_quit: "終了",
            menu_workshop: "Workshop ページ",
            menu_github: "GitHub（ソース／不具合報告）",
            menu_check_updates: "更新を自動確認（起動時と毎日）",
            menu_restore_desktop: "ゲームから離れたら元の IME に戻す",
            menu_startup: "Windows サインイン時に自動実行",
            startup_failed: "スタートアップのショートカットを変更できませんでした：\n\n{error}",
            update_available: "新しい pz-ime-guard {tag} があります（現在 {current}）。\n\nダウンロードページを開きますか？",
            notice: "pz-ime-guard はタスクトレイで動作中です（^ の中に隠れている場合があります）。\nキーキャップアイコンのランプ：緑＝英語配列、橙＝入力中（IME 復帰済み）、灰＝Project Zomboid を待機中。\nアイコンを右クリックで一時停止・終了。この案内は初回のみ表示されます。",
        },
        UiLanguage::Korean => Strings {
            paused: "일시 정지됨",
            no_game: "Project Zomboid 실행 대기 중",
            background: "PZ가 전면에 있지 않음",
            closing: "Project Zomboid 종료 중, 보호를 중지했습니다",
            no_english: "IME가 아닌 키보드가 없습니다. Windows 설정에서 영어(미국)를 추가하세요",
            guarding: "영어 배열 활성, 이동 키 안전",
            typing: "입력 중, IME 복원됨",
            no_safe_notice: "영어(미국) 등 IME가 아닌 키보드가 설치되어 있지 않아 pz-ime-guard가 전환할 배열이 없고 키를 보호할 수 없습니다.\n\nWindows 설정 → 시간 및 언어 → 언어 및 지역 → 언어 추가 → English (United States), 또는 「한국어」 언어 옵션에서 「영어 키보드」를 추가하세요.\n\n지금 설정을 열까요?",
            already_running: "pz-ime-guard가 이미 실행 중입니다. 시스템 트레이(^ 안)를 확인하세요. 이 사본은 종료됩니다.",
            old_running: "이전 버전의 pz-ime-guard가 실행 중이며 자동으로 종료하지 못했습니다.\n\n시스템 트레이(^ 안)의 아이콘을 우클릭 →「종료」한 뒤 이 사본을 다시 여세요.",
            menu_pause: "일시 정지",
            menu_quit: "종료",
            menu_workshop: "Workshop 페이지",
            menu_github: "GitHub(소스／문제 제보)",
            menu_check_updates: "업데이트 자동 확인(시작 시·매일)",
            menu_restore_desktop: "게임에서 벗어나면 원래 IME로 복원",
            menu_startup: "Windows 로그인 시 자동 실행",
            startup_failed: "시작 프로그램 바로 가기를 변경하지 못했습니다:\n\n{error}",
            update_available: "새 버전 pz-ime-guard {tag}가 있습니다(현재 {current}).\n\n다운로드 페이지를 열까요?",
            notice: "pz-ime-guard가 시스템 트레이에서 실행 중입니다(^ 안에 숨겨져 있을 수 있음).\n키캡 아이콘의 램프: 초록＝영어 배열, 주황＝입력 중(IME 복원됨), 회색＝Project Zomboid 대기 중.\n아이콘을 우클릭하면 일시 정지／종료할 수 있습니다. 이 안내는 처음 한 번만 표시됩니다.",
        },
    }
}

/// The interface text for a display language identifier.
pub fn strings_for(id: u16) -> (s: Strings)
    ensures
        s == strings_of(ui_language_of(id)),
{
    strings(ui_language(id))
}

/// Side of the tray icon in pixels.
pub const ICON_SIDE: usize = 32;

/// Bytes of a 32 by 32 RGBA image.
pub const ICON_BYTES: usize = 4096;

/// Four times the squared distance of pixel `p` (row-major in a 32 by 32
/// image) from the lamp centre at (25, 25), the pixel taken at its middle:
/// doubling every coordinate keeps it in integers.
pub open spec fn lamp_distance(p: int) -> int {
    let x = p % 32;
    let y = p / 32;
    (2 * x - 49) * (2 * x - 49) + (2 * y - 49) * (2 * y - 49)
}

/// Byte `i` of the icon for a status: inside radius 6 of the lamp centre the
/// lamp colour, up to radius 7 a dark outline, elsewhere the base image; every
/// painted pixel is opaque.
pub open spec fn icon_byte(base: Seq<u8>, status: Status, i: int) -> u8 {
    let d = lamp_distance(i / 4);
    let c = i % 4;
    if d <= 144 {
        if c == 3 {
            255u8
        } else {
            status.color()[c]
        }
    } else if d <= 196 {
        if c == 3 {
            255u8
        } else {
            30u8
        }
    } else {
        base[i]
    }
}

/// Paints the status lamp into the lower right corner of the 32 by 32 RGBA
/// base image.
pub fn paint_lamp(base: &Vec<u8>, status: Status) -> (rgba: Vec<u8>)
    requires
        base@.len() == ICON_BYTES,
    ensures
        rgba@.len() == ICON_BYTES,
        forall|i: int| 0 <= i < ICON_BYTES ==> #[trigger] rgba@[i] == icon_byte(base@, status, i),
{
    let color = status.rgb();
    let mut rgba = base.clone();
    let mut p: usize = 0;
    while p < 1024
        invariant
            base@.len() == ICON_BYTES,
            color@ == status.color(),
            rgba@.len() == ICON_BYTES,
            p <= 1024,
            forall|i: int| 0 <= i < 4 * p ==> #[trigger] rgba@[i] == icon_byte(base@, status, i),
            forall|i: int| 4 * p <= i < ICON_BYTES ==> #[trigger] rgba@[i] == base@[i],
        decreases 1024 - p,
    {
        let x = (p % 32) as i64;
        let y = (p / 32) as i64;
        assert(0 <= x < 32 && 0 <= y < 32);
        let a = 2 * x - 49;
        let b = 2 * y - 49;
        assert(0 <= a * a <= 2401) by (nonlinear_arith)
            requires
                -49 <= a <= 49,
        ;
        assert(0 <= b * b <= 2401) by (nonlinear_arith)
            requires
                -49 <= b <= 49,
        ;
        let d = a * a + b * b;
        assert(d == lamp_distance(p as int));
        if d <= 196 {
            let px: [u8; 4] = if d <= 144 {
                [color[0], color[1], color[2], 255]
            } else {
                [30, 30, 30, 255]
            };
            let mut c: usize = 0;
            while c < 4
                invariant
                    base@.len() == ICON_BYTES,
                    rgba@.len() == ICON_BYTES,
                    p < 1024,
                    c <= 4,
                    d == lamp_distance(p as int),
                    d <= 196,
                    forall|k: int| 0 <= k < 4 ==> #[trigger] px@[k] == (if k == 3 {
                        255u8
                    } else if d <= 144 {
                        status.color()[k]
                    } else {
                        30u8
                    }),
                    forall|i: int| 0 <= i < 4 * p + c ==> #[trigger] rgba@[i] == icon_byte(base@, status, i),
                    forall|i: int| 4 * p + c <= i < ICON_BYTES ==> #[trigger] rgba@[i] == base@[i],
                decreases 4 - c,
            {
                assert((4 * p + c) as int / 4 == p as int);
                assert((4 * p + c) as int % 4 == c as int);
                rgba.set(4 * p + c, px[c]);
                c = c + 1;
            }
        } else {
            assert forall|i: int| 4 * p <= i < 4 * p + 4 implies icon_byte(base@, status, i) == base@[i] by {
                assert(i / 4 == p as int);
            }
        }
        p = p + 1;
    }
    rgba
}

/// Each status is described by the text named after it, and the tooltip is
/// the tool's name followed by that text.
pub proof fn lemma_each_status_has_its_own_text(s: Strings)
    ensures
        Status::Paused.body(s) == s.paused,
        Status::NoGame.body(s) == s.no_game,
        Status::Background.body(s) == s.background,
        Status::Closing.body(s) == s.closing,
        Status::NoEnglish.body(s) == s.no_english,
        Status::Guarding.body(s) == s.guarding,
        Status::Typing.body(s) == s.typing,
{
}

/// The lamp tells the active states apart: guarding, typing and the missing
/// safe layout each have a colour of their own, none of them the grey that all
/// idle states (paused, no game, in background, closing) share.
pub proof fn lemma_lamp_tells_active_states_apart(a: Status, b: Status)
    ensures
        ({
            let idle = |s: Status|
                s == Status::Paused || s == Status::NoGame || s == Status::Background || s
                    == Status::Closing;
            &&& idle(a) && idle(b) ==> a.color() == b.color()
            &&& a != b && !(idle(a) && idle(b)) ==> a.color() != b.color()
        }),
{
    assert(Status::Paused.color() =~= seq![128u8, 128u8, 128u8]);
    let ca = a.color();
    let cb = b.color();
    if a != b && ca == cb {
        assert(ca[0] == cb[0] && ca[1] == cb[1]);
    }
}

/// Japanese and Korean are chosen by the primary language alone, whatever the
/// region; traditional Chinese exactly for Taiwan, Hong Kong and Macau,
/// simplified Chinese exactly for mainland China and Singapore; any other
/// identifier, another Chinese region included, gets English.
pub proof fn lemma_ui_language_by_identifier(id: u16)
    ensures
        ui_language_of(id) == UiLanguage::Japanese <==> id % 0x400 == 0x11,
        ui_language_of(id) == UiLanguage::Korean <==> id % 0x400 == 0x12,
        ui_language_of(id) == UiLanguage::TraditionalChinese <==> (id == 0x0404 || id == 0x0C04 || id
            == 0x1404),
        ui_language_of(id) == UiLanguage::SimplifiedChinese <==> (id == 0x0804 || id == 0x1004),
        ui_language_of(id) == UiLanguage::English <==> !(id % 0x400 == 0x11 || id % 0x400 == 0x12
            || id == 0x0404 || id == 0x0C04 || id == 0x1404 || id == 0x0804 || id == 0x1004),
{
}

/// The lamp sits in the lower right corner: every pixel in the left half or
/// the top half of the icon is the base image's, and the pixel at the lamp
/// centre (25, 25) is the opaque status colour.
pub proof fn lemma_lamp_sits_in_the_corner(base: Seq<u8>, status: Status, i: int)
    requires
        base.len() == ICON_BYTES,
        0 <= i < ICON_BYTES,
    ensures
        (i / 4) % 32 < 16 || (i / 4) / 32 < 16 ==> icon_byte(base, status, i) == base[i],
        4 * 825 <= i < 4 * 825 + 3 ==> icon_byte(base, status, i) == status.color()[i - 4 * 825],
        i == 4 * 825 + 3 ==> icon_byte(base, status, i) == 255,
{
    let p = i / 4;
    let x = p % 32;
    let y = p / 32;
    assert(0 <= x < 32 && 0 <= y < 32);
    assert((2 * x - 49) * (2 * x - 49) >= 0) by (nonlinear_arith);
    assert((2 * y - 49) * (2 * y - 49) >= 0) by (nonlinear_arith);
    if x < 16 {
        assert((2 * x - 49) * (2 * x - 49) >= 289) by (nonlinear_arith)
            requires
                0 <= x < 16,
        ;
    }
    if y < 16 {
        assert((2 * y - 49) * (2 * y - 49) >= 289) by (nonlinear_arith)
            requires
                0 <= y < 16,
        ;
    }
    if 4 * 825 <= i < 4 * 825 + 4 {
        assert(p == 825);
        assert(x == 25 && y == 25);
        assert(lamp_distance(825) == 2) by (nonlinear_arith);
    }
}

} // verus!
