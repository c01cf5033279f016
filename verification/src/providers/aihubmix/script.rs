//! The helper that reads the credit in a browser.
use vstd::prelude::*;

verus! {

/// Reads the credit of the signed-in console through the developer tools of a local
/// browser. It prints two numbers and nothing of the session.
pub const EDGE_CDP_BALANCE_SCRIPT: &'static str = r#"
$ErrorActionPreference = 'Stop'
$timeoutMs = [Math]::Max(2000, [int]$env:CODEXBAR_AIHUBMIX_CDP_TIMEOUT_MS)
$cts = [System.Threading.CancellationTokenSource]::new()
$cts.CancelAfter($timeoutMs)

function Send-Cdp([System.Net.WebSockets.ClientWebSocket]$ws, [int]$id, [string]$method, $params, [string]$sessionId = '') {
    $msg = @{ id = $id; method = $method; params = $params }
    if ($sessionId) { $msg.sessionId = $sessionId }
    $json = $msg | ConvertTo-Json -Compress -Depth 12
    $bytes = [System.Text.Encoding]::UTF8.GetBytes($json)
    $seg = [System.ArraySegment[byte]]::new($bytes)
    $ws.SendAsync($seg, [System.Net.WebSockets.WebSocketMessageType]::Text, $true, $cts.Token).GetAwaiter().GetResult()
}

function Receive-Cdp([System.Net.WebSockets.ClientWebSocket]$ws) {
    $stream = [System.IO.MemoryStream]::new()
    try {
        do {
            $buffer = New-Object byte[] 65536
            $seg = [System.ArraySegment[byte]]::new($buffer)
            $result = $ws.ReceiveAsync($seg, $cts.Token).GetAwaiter().GetResult()
            if ($result.MessageType -eq [System.Net.WebSockets.WebSocketMessageType]::Close) {
                throw 'CDP websocket closed before AIHubMix balance data arrived'
            }
            $stream.Write($buffer, 0, $result.Count)
        } while (-not $result.EndOfMessage)
        $text = [System.Text.Encoding]::UTF8.GetString($stream.ToArray())
        return ($text | ConvertFrom-Json)
    } finally {
        $stream.Dispose()
    }
}

$endpoints = @(Get-CimInstance Win32_Process | Where-Object {
    $_.Name -in @('msedge.exe', 'chrome.exe', 'brave.exe') -and
    $_.CommandLine -match '--remote-debugging-port=([0-9]+)'
} | ForEach-Object {
    if ($_.CommandLine -match '--remote-debugging-port=([0-9]+)') {
        [pscustomobject]@{ port = [int]$matches[1]; wsUrl = $null }
    }
})

$activePortFiles = @(
    (Join-Path $env:LOCALAPPDATA 'Microsoft\Edge\User Data\DevToolsActivePort'),
    (Join-Path $env:LOCALAPPDATA 'Google\Chrome\User Data\DevToolsActivePort')
)
foreach ($activePortFile in $activePortFiles) {
    try {
        if (-not (Test-Path -LiteralPath $activePortFile)) { continue }
        $lines = @(Get-Content -LiteralPath $activePortFile -ErrorAction Stop)
        if ($lines.Count -lt 2) { continue }
        $port = 0
        if (-not [int]::TryParse([string]$lines[0], [ref]$port) -or $port -le 0) { continue }
        $path = [string]$lines[1]
        if ($path -notmatch '^/devtools/browser/[A-Za-z0-9._-]+$') { continue }
        $listener = Get-NetTCPConnection -State Listen -LocalPort $port -ErrorAction Stop |
            Where-Object { $_.LocalAddress -in @('127.0.0.1', '::1') } |
            Select-Object -First 1
        if (-not $listener) { continue }
        $owner = Get-Process -Id $listener.OwningProcess -ErrorAction Stop
        if ($owner.ProcessName -notin @('msedge', 'chrome', 'brave')) { continue }
        $endpoints += [pscustomobject]@{
            port = $port
            wsUrl = ("ws://127.0.0.1:{0}{1}" -f $port, $path)
        }
    } catch {
        # Ignore stale or inaccessible browser endpoint metadata.
    }
}

$endpoints = @($endpoints | Group-Object port | ForEach-Object { $_.Group | Select-Object -First 1 })

foreach ($endpoint in $endpoints) {
    $ws = $null
    try {
        $wsUrl = [string]$endpoint.wsUrl
        if (-not $wsUrl) {
            $version = Invoke-RestMethod -Uri ("http://127.0.0.1:{0}/json/version" -f $endpoint.port) -TimeoutSec 2
            $wsUrl = [string]$version.webSocketDebuggerUrl
        }
        if (-not $wsUrl) { continue }

        $ws = [System.Net.WebSockets.ClientWebSocket]::new()
        $ws.ConnectAsync([Uri]$wsUrl, $cts.Token).GetAwaiter().GetResult()

        Send-Cdp $ws 1 'Target.getTargets' @{}
        do { $message = Receive-Cdp $ws } until ($message.id -eq 1)
        if ($message.error) { continue }

        $preferredContexts = @()
        $otherContexts = @()
        foreach ($info in @($message.result.targetInfos)) {
            if ($info.type -ne 'page') { continue }
            $contextId = [string]$info.browserContextId
            $url = [string]$info.url
            if ($url -match '^https://(?:console\.)?aihubmix\.com/' -and $url -notmatch '/login(?:\?|$)') {
                if ($preferredContexts -notcontains $contextId) { $preferredContexts += $contextId }
            } elseif ($otherContexts -notcontains $contextId) {
                $otherContexts += $contextId
            }
        }
        $contexts = @($preferredContexts + $otherContexts | Select-Object -Unique)
        if ($contexts.Count -eq 0) { $contexts = @('') }

        $nextId = 1
        foreach ($contextId in $contexts) {
            $targetId = $null
            $sessionId = $null
            try {
                $createParams = @{ url = 'about:blank'; hidden = $true; background = $true }
                if ($contextId) { $createParams.browserContextId = $contextId }

                $nextId += 1
                $createId = $nextId
                Send-Cdp $ws $createId 'Target.createTarget' $createParams
                do { $message = Receive-Cdp $ws } until ($message.id -eq $createId)
                if ($message.error) { continue }
                $targetId = [string]$message.result.targetId
                if (-not $targetId) { continue }

                $nextId += 1
                $attachId = $nextId
                Send-Cdp $ws $attachId 'Target.attachToTarget' @{ targetId = $targetId; flatten = $true }
                do { $message = Receive-Cdp $ws } until ($message.id -eq $attachId)
                $sessionId = [string]$message.result.sessionId
                if (-not $sessionId) { continue }

                $nextId += 1
                $networkId = $nextId
                Send-Cdp $ws $networkId 'Network.enable' @{} $sessionId
                do { $message = Receive-Cdp $ws } until ($message.id -eq $networkId)

                $nextId += 1
                $navigateId = $nextId
                Send-Cdp $ws $navigateId 'Page.navigate' @{ url = 'https://console.aihubmix.com/topup' } $sessionId

                $requestId = $null
                $authFailed = $false
                while (-not $requestId -and -not $authFailed) {
                    $message = Receive-Cdp $ws
                    if ($message.method -eq 'Network.responseReceived' -and $message.sessionId -eq $sessionId) {
                        $url = [string]$message.params.response.url
                        $status = [int]$message.params.response.status
                        if ($url -match '^https://(?:console\.|api\.)?aihubmix\.com/api/user/self(?:\?|$)') {
                            if ($status -ge 200 -and $status -lt 300) {
                                $requestId = [string]$message.params.requestId
                            } elseif ($status -eq 401 -or $status -eq 403) {
                                $authFailed = $true
                            }
                        }
                    }
                }
                if ($authFailed -or -not $requestId) { continue }

                $nextId += 1
                $bodyId = $nextId
                Send-Cdp $ws $bodyId 'Network.getResponseBody' @{ requestId = $requestId } $sessionId
                do { $message = Receive-Cdp $ws } until ($message.id -eq $bodyId)
                $body = [string]$message.result.body
                if ($message.result.base64Encoded) {
                    $body = [System.Text.Encoding]::UTF8.GetString([Convert]::FromBase64String($body))
                }
                $payload = $body | ConvertFrom-Json
                if ($payload.success -eq $false) { continue }
                $quota = $payload.data.quota
                if ($null -eq $quota) { continue }
                $usedQuota = $payload.data.used_quota
                $quotaText = [Convert]::ToString([double]$quota, [Globalization.CultureInfo]::InvariantCulture)
                $usedText = if ($null -eq $usedQuota) { '' } else { [Convert]::ToString([double]$usedQuota, [Globalization.CultureInfo]::InvariantCulture) }
                [Console]::Out.WriteLine("$quotaText|$usedText")
                exit 0
            } catch {
                # Continue with another browser context without printing session details.
            } finally {
                if ($targetId) {
                    try {
                        $nextId += 1
                        Send-Cdp $ws $nextId 'Target.closeTarget' @{ targetId = $targetId }
                    } catch {}
                }
            }
        }
    } catch {
        # Try the next locally-debuggable Chromium browser. Do not print session details.
    } finally {
        if ($ws) { try { $ws.Dispose() } catch {} }
    }
}

exit 3
"#;

} // verus!
